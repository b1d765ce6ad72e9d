//! The mutable storage of one object instance.
//!
//! [`ObjData`] holds a name-keyed property map, an ordered slot array, a
//! method dispatch table, the prototype link, the trait source, the
//! enumeration order and the interface list. Every operation here touches one
//! object only; chain walks live in the resolution engine.
//!
//! The property map is an association vector. Its names are unique, so the
//! first match is the only match; insertion order is preserved, which the
//! wildcard resolution rules depend on.

use vstd::prelude::*;

use crate::error::EngineError;
use crate::names::{QName, QNameView};
use crate::property::{Property, PropertyAttributes, SlotCell};
use crate::property::{spec_can_delete, spec_has_getter, spec_has_setter, spec_is_overwritable};
use crate::property::{ATTR_DONT_DELETE, ATTR_DONT_ENUM, ATTR_READ_ONLY};
use crate::value::Value;

verus! {

/// One entry of the name-keyed property map.
#[derive(Debug)]
pub struct PropEntry {
    pub name: QName,
    pub prop: Property,
}

impl Clone for PropEntry {
    /// An exact copy: the copy equals the original.
    fn clone(&self) -> (r: PropEntry)
        ensures
            r == *self,
    {
        PropEntry { name: self.name.clone(), prop: self.prop.clone() }
    }
}

/// Where an object's lazily instantiated traits come from.
///
/// A class constructor instantiates the class's own static traits; a
/// prototype does not instantiate anything itself but provides its class's
/// instance traits to the objects below it; a plain object has no class.
/// The optional scope is the scope chain the object closed over at creation.
#[derive(Clone, Copy, Debug)]
pub enum TraitSource {
    /// Instantiate class (static) traits, for class constructors.
    ClassConstructor(usize, Option<usize>),
    /// Provide instance traits to instances, for prototypes.
    InstancePrototype(usize, Option<usize>),
    /// No class: only dynamic properties.
    NoClass,
}

/// What a read resolved to: either a finished value, or the instruction to
/// call a getter. Running the getter is the host interpreter's work; the
/// engine only decides which function must run, with which receiver and
/// which base prototype for super-dispatch.
#[derive(Debug)]
pub enum GetOutcome {
    Value(Value),
    CallGetter { getter: usize, receiver: usize, base_proto: Option<usize> },
}

/// What a write resolved to: either a finished state change, or the
/// instruction to call a setter with the value.
#[derive(Debug)]
pub enum SetOutcome {
    Done,
    CallSetter { setter: usize, receiver: usize, base_proto: Option<usize>, value: Value },
}

/// The first property bound to `name`, scanning in insertion order.
pub open spec fn spec_find_prop(s: Seq<PropEntry>, name: QNameView) -> Option<Property>
    decreases s.len(),
{
    if s.len() == 0 {
        None
    } else if s[0].name@ == name {
        Some(s[0].prop)
    } else {
        spec_find_prop(s.drop_first(), name)
    }
}

/// Whether some property is bound to `name`.
pub open spec fn spec_has_prop(s: Seq<PropEntry>, name: QNameView) -> bool {
    spec_find_prop(s, name) is Some
}

/// The position of the first entry bound to `name`; the length when there
/// is none.
pub open spec fn spec_find_index(s: Seq<PropEntry>, name: QNameView) -> int
    decreases s.len(),
{
    if s.len() == 0 {
        0
    } else if s[0].name@ == name {
        0
    } else {
        1 + spec_find_index(s.drop_first(), name)
    }
}

/// The property map binds each name at most once.
pub open spec fn spec_props_unique(s: Seq<PropEntry>) -> bool {
    forall|i: int, j: int|
        0 <= i < j < s.len() ==> (#[trigger] s[i]).name@ != (#[trigger] s[j]).name@
}

/// Whether `name` occurs in the enumeration order.
pub open spec fn spec_enum_contains(s: Seq<QName>, name: QNameView) -> bool {
    exists|i: int| 0 <= i < s.len() && (#[trigger] s[i])@ == name
}

/// The position of `name` in the enumeration order; meaningful only when it
/// occurs.
pub open spec fn spec_enum_index(s: Seq<QName>, name: QNameView) -> int {
    choose|i: int| 0 <= i < s.len() && (#[trigger] s[i])@ == name
}

/// Local well-formedness of one object's storage: names are bound at most
/// once, every slot-backed property points into the slot array, and the
/// enumeration order lists (without repetition) only names that are bound.
pub open spec fn wf_data(d: ObjData) -> bool {
    &&& spec_props_unique(d.props@)
    &&& forall|i: int|
        0 <= i < d.props@.len() ==> match (#[trigger] d.props@[i]).prop {
            Property::Slot { slot_id } => slot_id < d.slots@.len(),
            _ => true,
        }
    &&& forall|i: int, j: int|
        0 <= i < j < d.enumerants@.len() ==> (#[trigger] d.enumerants@[i])@ != (
        #[trigger] d.enumerants@[j])@
    &&& forall|i: int|
        0 <= i < d.enumerants@.len() ==> spec_has_prop(d.props@, (#[trigger] d.enumerants@[i])@)
}

/// The basic facts about a first-match scan, provable by induction on the
/// sequence: the index is in range exactly when the name is bound, entries
/// before the index do not match, and the entry at the index is the match.
pub proof fn lemma_find_prop_properties(s: Seq<PropEntry>, name: QNameView)
    ensures
        0 <= spec_find_index(s, name) <= s.len(),
        spec_has_prop(s, name) <==> spec_find_index(s, name) < s.len(),
        spec_has_prop(s, name) ==> {
            let i = spec_find_index(s, name);
            &&& s[i].name@ == name
            &&& spec_find_prop(s, name) == Some(s[i].prop)
        },
        forall|j: int| 0 <= j < spec_find_index(s, name) ==> (#[trigger] s[j]).name@ != name,
    decreases s.len(),
{
    if s.len() != 0 {
        if s[0].name@ == name {
        } else {
            lemma_find_prop_properties(s.drop_first(), name);
            assert forall|j: int| 0 <= j < spec_find_index(s, name) implies (
            #[trigger] s[j]).name@ != name by {
                if j > 0 {
                    assert(s.drop_first()[j - 1] == s[j]);
                }
            }
        }
    }
}

/// Appending an entry does not disturb the scan for names that are already
/// bound or that the new entry does not carry.
pub proof fn lemma_find_prop_push(s: Seq<PropEntry>, e: PropEntry, name: QNameView)
    ensures
        spec_find_prop(s.push(e), name) == if spec_has_prop(s, name) {
            spec_find_prop(s, name)
        } else if e.name@ == name {
            Some(e.prop)
        } else {
            None::<Property>
        },
    decreases s.len(),
{
    let p = s.push(e);
    assert(p.len() == s.len() + 1);
    if s.len() == 0 {
        assert(p[0] == e);
        assert(!spec_has_prop(s, name));
        if e.name@ == name {
            assert(spec_find_prop(p, name) == Some(e.prop));
        } else {
            assert(p.drop_first() =~= Seq::<PropEntry>::empty());
            assert(spec_find_prop(p.drop_first(), name) is None);
            assert(spec_find_prop(p, name) is None);
        }
    } else {
        assert(p[0] == s[0]);
        assert(p.drop_first() =~= s.drop_first().push(e));
        lemma_find_prop_push(s.drop_first(), e, name);
        if s[0].name@ == name {
            assert(spec_find_prop(p, name) == Some(s[0].prop));
            assert(spec_find_prop(s, name) == Some(s[0].prop));
        } else {
            assert(spec_find_prop(p, name) == spec_find_prop(s.drop_first().push(e), name));
            assert(spec_find_prop(s, name) == spec_find_prop(s.drop_first(), name));
            assert(spec_has_prop(s, name) == spec_has_prop(s.drop_first(), name));
        }
    }
}

/// Replacing the entry at a position with one carrying the same name moves
/// the scan for that name to the new property (when the position is the
/// first match) and leaves every other name's scan unchanged.
pub proof fn lemma_find_prop_update(s: Seq<PropEntry>, i: int, e: PropEntry, name: QNameView)
    requires
        0 <= i < s.len(),
        s[i].name@ == e.name@,
    ensures
        e.name@ == name && i == spec_find_index(s, name) ==> spec_find_prop(s.update(i, e), name)
            == Some(e.prop),
        e.name@ != name ==> spec_find_prop(s.update(i, e), name) == spec_find_prop(s, name),
        spec_find_index(s.update(i, e), name) == spec_find_index(s, name),
    decreases s.len(),
{
    if i == 0 {
        assert(s.update(0, e).drop_first() =~= s.drop_first());
    } else {
        assert(s.update(i, e).drop_first() =~= s.drop_first().update(i - 1, e));
        lemma_find_prop_update(s.drop_first(), i - 1, e, name);
    }
}

/// Removing the entry at a position removes its binding and leaves every
/// other name's scan unchanged, provided names are bound at most once.
pub proof fn lemma_find_prop_remove(s: Seq<PropEntry>, i: int, name: QNameView)
    requires
        0 <= i < s.len(),
        spec_props_unique(s),
    ensures
        s[i].name@ == name ==> !spec_has_prop(s.remove(i), name),
        s[i].name@ != name ==> spec_find_prop(s.remove(i), name) == spec_find_prop(s, name),
    decreases s.len(),
{
    if i == 0 {
        assert(s.remove(0) =~= s.drop_first());
        if s[0].name@ == name {
            lemma_find_prop_properties(s.drop_first(), name);
            if spec_has_prop(s.drop_first(), name) {
                let k = spec_find_index(s.drop_first(), name);
                assert(s[k + 1].name@ == name);
            }
        }
    } else {
        assert(s.remove(i).drop_first() =~= s.drop_first().remove(i - 1));
        assert(spec_props_unique(s.drop_first())) by {
            assert forall|a: int, b: int|
                0 <= a < b < s.drop_first().len() implies (#[trigger] s.drop_first()[a]).name@ != (
            #[trigger] s.drop_first()[b]).name@ by {
                assert(s.drop_first()[a] == s[a + 1]);
                assert(s.drop_first()[b] == s[b + 1]);
            }
        }
        lemma_find_prop_remove(s.drop_first(), i - 1, name);
        if s[0].name@ == name {
            assert(s.remove(i)[0] == s[0]);
        }
    }
}

/// Base data common to every object kind.
///
/// Specialized object kinds embed this storage and intercept only the
/// operations their reserved index space needs.
#[derive(Debug)]
pub struct ObjData {
    /// Properties stored on this object, in insertion order.
    pub props: Vec<PropEntry>,
    /// The fixed-offset slot array.
    pub slots: Vec<SlotCell>,
    /// The method dispatch table, indexed by dispatch id.
    pub methods: Vec<Option<usize>>,
    /// The implicit prototype, an earlier-allocated object.
    pub proto: Option<usize>,
    /// Where lazily instantiated traits come from.
    pub trait_source: TraitSource,
    /// Enumerable property names, in insertion order.
    pub enumerants: Vec<QName>,
    /// Interfaces implemented by this object (prototypes only).
    pub interfaces: Vec<usize>,
}

impl ObjData {
    /// Fresh storage with the given prototype and trait source and nothing
    /// else.
    pub fn base_new(proto: Option<usize>, trait_source: TraitSource) -> (r: ObjData)
        ensures
            r.props@ =~= Seq::<PropEntry>::empty(),
            r.slots@ =~= Seq::<SlotCell>::empty(),
            r.methods@ =~= Seq::<Option<usize>>::empty(),
            r.proto == proto,
            r.trait_source == trait_source,
            r.enumerants@ =~= Seq::<QName>::empty(),
            r.interfaces@ =~= Seq::<usize>::empty(),
            wf_data(r),
    {
        ObjData {
            props: Vec::new(),
            slots: Vec::new(),
            methods: Vec::new(),
            proto,
            trait_source,
            enumerants: Vec::new(),
            interfaces: Vec::new(),
        }
    }

    /// The position of the first (and only) entry bound to `name`.
    pub fn find_prop_index(&self, name: &QName) -> (r: Option<usize>)
        ensures
            match r {
                Some(i) => i == spec_find_index(self.props@, name@) && i < self.props@.len(),
                None => !spec_has_prop(self.props@, name@),
            },
    {
        proof {
            lemma_find_prop_properties(self.props@, name@);
        }
        let mut i: usize = 0;
        while i < self.props.len()
            invariant
                i <= self.props@.len(),
                forall|j: int| 0 <= j < i ==> (#[trigger] self.props@[j]).name@ != name@,
                0 <= spec_find_index(self.props@, name@) <= self.props@.len(),
                spec_has_prop(self.props@, name@) <==> spec_find_index(self.props@, name@)
                    < self.props@.len(),
                spec_has_prop(self.props@, name@) ==> self.props@[spec_find_index(
                    self.props@,
                    name@,
                )].name@ == name@,
                forall|j: int|
                    0 <= j < spec_find_index(self.props@, name@) ==> (
                    #[trigger] self.props@[j]).name@ != name@,
            decreases self.props@.len() - i,
        {
            if self.props[i].name.qname_eq(name) {
                proof {
                    let fi = spec_find_index(self.props@, name@);
                    if fi < i {
                        assert(self.props@[fi].name@ != name@);
                    }
                    if fi > i {
                        assert(self.props@[i as int].name@ != name@);
                    }
                }
                return Some(i);
            }
            i += 1;
        }
        None
    }

    /// Whether a property or instantiated trait is bound to `name` on this
    /// object itself.
    pub fn has_instantiated_property(&self, name: &QName) -> (r: bool)
        ensures
            r == spec_has_prop(self.props@, name@),
    {
        proof {
            lemma_find_prop_properties(self.props@, name@);
        }
        self.find_prop_index(name).is_some()
    }

    /// Whether this object itself carries an installed virtual getter for
    /// `name`.
    pub fn has_own_virtual_getter(&self, name: &QName) -> (r: bool)
        ensures
            r == match spec_find_prop(self.props@, name@) {
                Some(p) => spec_has_getter(p),
                None => false,
            },
    {
        match self.find_prop_index(name) {
            Some(i) => {
                proof {
                    lemma_find_prop_properties(self.props@, name@);
                }
                matches!(&self.props[i].prop, Property::Virtual { get: Some(_), .. })
            },
            None => false,
        }
    }

    /// Whether this object itself carries an installed virtual setter for
    /// `name`.
    pub fn has_own_virtual_setter(&self, name: &QName) -> (r: bool)
        ensures
            r == match spec_find_prop(self.props@, name@) {
                Some(p) => spec_has_setter(p),
                None => false,
            },
    {
        match self.find_prop_index(name) {
            Some(i) => {
                proof {
                    lemma_find_prop_properties(self.props@, name@);
                }
                matches!(&self.props[i].prop, Property::Virtual { set: Some(_), .. })
            },
            None => false,
        }
    }

    /// Whether an assignment may replace the entry bound to `name`; an
    /// absent entry may always be created.
    pub fn is_property_overwritable(&self, name: &QName) -> (r: bool)
        ensures
            r == match spec_find_prop(self.props@, name@) {
                Some(p) => spec_is_overwritable(p),
                None => true,
            },
    {
        match self.find_prop_index(name) {
            Some(i) => {
                proof {
                    lemma_find_prop_properties(self.props@, name@);
                }
                self.props[i].prop.is_overwritable()
            },
            None => true,
        }
    }

    /// Reads a slot by index. An index outside the allocated slot array is
    /// a fatal internal error, never a silent `Undefined`: it means the
    /// trait table and the storage have diverged.
    pub fn get_slot(&self, id: u32) -> (r: Result<Value, EngineError>)
        ensures
            match r {
                Ok(v) => id < self.slots@.len() && v == self.slots@[id as int].value,
                Err(e) => id >= self.slots@.len() && e == (EngineError::SlotOutOfBounds { id }),
            },
    {
        if (id as usize) < self.slots.len() {
            Ok(self.slots[id as usize].value.clone())
        } else {
            Err(EngineError::SlotOutOfBounds { id })
        }
    }

    /// Writes a slot by index. A constant slot refuses the write: fatally
    /// under strict semantics, silently under lenient semantics.
    pub fn set_slot(&mut self, id: u32, value: Value, strict: bool) -> (r: Result<
        (),
        EngineError,
    >)
        ensures
            spec_set_slot(*old(self), *final(self), id, value, strict, r),
    {
        if (id as usize) < self.slots.len() {
            if self.slots[id as usize].is_const {
                if strict {
                    Err(EngineError::WriteToConst)
                } else {
                    Ok(())
                }
            } else {
                let cell = SlotCell { value, is_const: false };
                self.slots.set(id as usize, cell);
                Ok(())
            }
        } else {
            Err(EngineError::SlotOutOfBounds { id })
        }
    }

    /// Initializes a slot by index. Initialization may write constant
    /// slots: it is how their first value arrives.
    pub fn init_slot(&mut self, id: u32, value: Value) -> (r: Result<(), EngineError>)
        ensures
            match r {
                Ok(()) => id < old(self).slots@.len() && final(self).slots@ == old(self).slots@.update(
                    id as int,
                    SlotCell { value, is_const: old(self).slots@[id as int].is_const },
                ) && final(self).props == old(self).props && final(self).methods == old(self).methods && final(self).proto == old(self).proto && final(self).trait_source
                    == old(self).trait_source && final(self).enumerants == old(self).enumerants
                    && final(self).interfaces == old(self).interfaces,
                Err(e) => id >= old(self).slots@.len() && e == (EngineError::SlotOutOfBounds {
                    id,
                }) && *final(self) == *old(self),
            },
    {
        if (id as usize) < self.slots.len() {
            let is_const = self.slots[id as usize].is_const;
            let cell = SlotCell { value, is_const };
            self.slots.set(id as usize, cell);
            Ok(())
        } else {
            Err(EngineError::SlotOutOfBounds { id })
        }
    }

    /// Retrieves a method from the dispatch table.
    pub fn get_method(&self, id: u32) -> (r: Option<usize>)
        ensures
            r == if id < self.methods@.len() {
                self.methods@[id as int]
            } else {
                None::<usize>
            },
    {
        if (id as usize) < self.methods.len() {
            self.methods[id as usize]
        } else {
            None
        }
    }

    /// The enumerable name at a one-based index. Index zero is the failure
    /// sentinel of the enumeration protocol and yields `None`, as does any
    /// index beyond the count.
    pub fn get_enumerant_name(&self, index: u32) -> (r: Option<QName>)
        ensures
            match r {
                Some(q) => 1 <= index <= self.enumerants@.len() && q == self.enumerants@[index
                    as int - 1],
                None => index == 0 || index > self.enumerants@.len(),
            },
    {
        if index == 0 {
            None
        } else {
            let true_index = (index - 1) as usize;
            if true_index < self.enumerants.len() {
                Some(self.enumerants[true_index].clone())
            } else {
                None
            }
        }
    }

    /// Whether `name` is currently enumerable on this object.
    pub fn property_is_enumerable(&self, name: &QName) -> (r: bool)
        ensures
            r == spec_enum_contains(self.enumerants@, name@),
    {
        let mut i: usize = 0;
        while i < self.enumerants.len()
            invariant
                i <= self.enumerants@.len(),
                forall|j: int| 0 <= j < i ==> (#[trigger] self.enumerants@[j])@ != name@,
            decreases self.enumerants@.len() - i,
        {
            if self.enumerants[i].qname_eq(name) {
                return true;
            }
            i += 1;
        }
        false
    }
}

/// The first of two options that is present, if any: how a super-call's
/// base prototype falls back to the object's own prototype.
pub open spec fn spec_opt_or(a: Option<usize>, b: Option<usize>) -> Option<usize> {
    if a is Some {
        a
    } else {
        b
    }
}

/// The outcome of [`ObjData::get_property_local`]: a stored value is
/// returned as it is; a slot reference reads the slot array (an
/// unallocated index is a fatal engine error); a getter defers to the host
/// with the original receiver; a setter-only entry reads as `Undefined` by
/// write-only semantics; an absent entry reads as `Undefined` because
/// dynamic-property absence is a normal condition.
pub open spec fn spec_get_local_fn(
    d: ObjData,
    receiver: usize,
    base_proto: Option<usize>,
    name: QNameView,
) -> Result<GetOutcome, EngineError> {
    match spec_find_prop(d.props@, name) {
        None => Ok(GetOutcome::Value(Value::Undefined)),
        Some(Property::Stored { value, .. }) => Ok(GetOutcome::Value(value)),
        Some(Property::Virtual { get: Some(g), .. }) => Ok(
            GetOutcome::CallGetter {
                getter: g,
                receiver,
                base_proto: spec_opt_or(base_proto, d.proto),
            },
        ),
        Some(Property::Virtual { get: None, .. }) => Ok(GetOutcome::Value(Value::Undefined)),
        Some(Property::Slot { slot_id }) => if slot_id < d.slots@.len() {
            Ok(GetOutcome::Value(d.slots@[slot_id as int].value))
        } else {
            Err(EngineError::SlotOutOfBounds { id: slot_id })
        },
    }
}

/// The outcome relation of [`ObjData::get_property_local`].
pub open spec fn spec_get_local(
    d: ObjData,
    receiver: usize,
    base_proto: Option<usize>,
    name: QNameView,
    r: Result<GetOutcome, EngineError>,
) -> bool {
    r == spec_get_local_fn(d, receiver, base_proto, name)
}

/// Insertion into the property map: replace the single entry bound to the
/// name, or append a fresh one.
pub open spec fn spec_props_insert(
    pre: Seq<PropEntry>,
    post: Seq<PropEntry>,
    name: QName,
    prop: Property,
) -> bool {
    if spec_has_prop(pre, name@) {
        post == pre.update(spec_find_index(pre, name@), PropEntry { name, prop })
    } else {
        post == pre.push(PropEntry { name, prop })
    }
}

/// After an insertion the name is bound to the new property and every other
/// name is bound as before.
pub proof fn lemma_props_insert_effect(
    pre: Seq<PropEntry>,
    post: Seq<PropEntry>,
    name: QName,
    prop: Property,
)
    requires
        spec_props_insert(pre, post, name, prop),
    ensures
        spec_find_prop(post, name@) == Some(prop),
        forall|m: QNameView| m != name@ ==> spec_find_prop(post, m) == spec_find_prop(pre, m),
{
    let e = PropEntry { name, prop };
    if spec_has_prop(pre, name@) {
        let i = spec_find_index(pre, name@);
        lemma_find_prop_properties(pre, name@);
        lemma_find_prop_update(pre, i, e, name@);
        assert forall|m: QNameView| m != name@ implies spec_find_prop(post, m) == spec_find_prop(
            pre,
            m,
        ) by {
            lemma_find_prop_update(pre, i, e, m);
        }
    } else {
        lemma_find_prop_push(pre, e, name@);
        assert forall|m: QNameView| m != name@ implies spec_find_prop(post, m) == spec_find_prop(
            pre,
            m,
        ) by {
            lemma_find_prop_push(pre, e, m);
        }
    }
}

/// The dispatch-table relation of an installation: a zero dispatch id means
/// "unallocated" and leaves the table alone; otherwise the table grows as
/// needed, the new function lands at its id, and every other entry is kept.
pub open spec fn spec_methods_install(
    pre: Seq<Option<usize>>,
    post: Seq<Option<usize>>,
    disp_id: u32,
    function: usize,
) -> bool {
    if disp_id == 0 {
        post == pre
    } else {
        &&& post.len() == if (disp_id as int) < pre.len() {
            pre.len() as int
        } else {
            disp_id as int + 1
        }
        &&& post[disp_id as int] == Some(function)
        &&& forall|j: int|
            0 <= j < post.len() && j != disp_id as int ==> post[j] == (if j < pre.len() {
                pre[j]
            } else {
                None::<usize>
            })
    }
}

/// The slot-array relation of a slot or const installation: the array grows
/// with empty writable cells as needed, the seeded cell lands at its id,
/// and every other cell is kept.
pub open spec fn spec_slots_install(
    pre: Seq<SlotCell>,
    post: Seq<SlotCell>,
    id: u32,
    cell: SlotCell,
) -> bool {
    &&& post.len() == if (id as int) < pre.len() {
        pre.len() as int
    } else {
        id as int + 1
    }
    &&& post[id as int] == cell
    &&& forall|j: int|
        0 <= j < post.len() && j != id as int ==> post[j] == (if j < pre.len() {
            pre[j]
        } else {
            SlotCell { value: Value::Undefined, is_const: false }
        })
}

/// The state relation of [`ObjData::set_property_local`], by the kind of
/// entry the name is bound to. A fresh name becomes a dynamic property and
/// is appended to the enumeration order: new dynamic properties are
/// enumerable by default.
pub open spec fn spec_set_local(
    pre: ObjData,
    post: ObjData,
    receiver: usize,
    base_proto: Option<usize>,
    name: QName,
    value: Value,
    strict: bool,
    r: Result<SetOutcome, EngineError>,
) -> bool {
    match spec_find_prop(pre.props@, name@) {
        None => {
            &&& r == Ok::<SetOutcome, EngineError>(SetOutcome::Done)
            &&& post.props@ == pre.props@.push(
                PropEntry {
                    name,
                    prop: Property::Stored {
                        value,
                        attributes: PropertyAttributes { bits: 0 },
                    },
                },
            )
            &&& post.enumerants@ == pre.enumerants@.push(name)
            &&& post.slots == pre.slots
            &&& post.methods == pre.methods
            &&& post.proto == pre.proto
            &&& post.trait_source == pre.trait_source
            &&& post.interfaces == pre.interfaces
        },
        Some(Property::Slot { slot_id }) => {
            if slot_id >= pre.slots@.len() {
                r == Err::<SetOutcome, EngineError>(
                    EngineError::SlotOutOfBounds { id: slot_id },
                ) && post == pre
            } else if pre.slots@[slot_id as int].is_const {
                if strict {
                    r == Err::<SetOutcome, EngineError>(EngineError::WriteToConst) && post == pre
                } else {
                    r == Ok::<SetOutcome, EngineError>(SetOutcome::Done) && post == pre
                }
            } else {
                &&& r == Ok::<SetOutcome, EngineError>(SetOutcome::Done)
                &&& post.slots@ == pre.slots@.update(
                    slot_id as int,
                    SlotCell { value, is_const: false },
                )
                &&& post.props == pre.props
                &&& post.methods == pre.methods
                &&& post.proto == pre.proto
                &&& post.trait_source == pre.trait_source
                &&& post.enumerants == pre.enumerants
                &&& post.interfaces == pre.interfaces
            }
        },
        Some(Property::Stored { value: _, attributes }) => {
            if attributes.bits & ATTR_READ_ONLY == ATTR_READ_ONLY {
                if strict {
                    r == Err::<SetOutcome, EngineError>(EngineError::WriteToConst) && post == pre
                } else {
                    r == Ok::<SetOutcome, EngineError>(SetOutcome::Done) && post == pre
                }
            } else {
                &&& r == Ok::<SetOutcome, EngineError>(SetOutcome::Done)
                &&& post.props@ == pre.props@.update(
                    spec_find_index(pre.props@, name@),
                    PropEntry {
                        name: pre.props@[spec_find_index(pre.props@, name@)].name,
                        prop: Property::Stored { value, attributes },
                    },
                )
                &&& post.slots == pre.slots
                &&& post.methods == pre.methods
                &&& post.proto == pre.proto
                &&& post.trait_source == pre.trait_source
                &&& post.enumerants == pre.enumerants
                &&& post.interfaces == pre.interfaces
            }
        },
        Some(Property::Virtual { set: Some(s), .. }) => {
            &&& r == Ok::<SetOutcome, EngineError>(
                SetOutcome::CallSetter {
                    setter: s,
                    receiver,
                    base_proto: spec_opt_or(base_proto, pre.proto),
                    value,
                },
            )
            &&& post == pre
        },
        Some(Property::Virtual { set: None, .. }) => {
            r == Ok::<SetOutcome, EngineError>(SetOutcome::Done) && post == pre
        },
    }
}

/// The state relation of [`ObjData::init_property_local`]. Initialization
/// differs from assignment in two ways: it may write constants (it is how
/// their first value arrives), and a fresh name is *not* made enumerable.
pub open spec fn spec_init_local(
    pre: ObjData,
    post: ObjData,
    receiver: usize,
    base_proto: Option<usize>,
    name: QName,
    value: Value,
    r: Result<SetOutcome, EngineError>,
) -> bool {
    match spec_find_prop(pre.props@, name@) {
        None => {
            &&& r == Ok::<SetOutcome, EngineError>(SetOutcome::Done)
            &&& post.props@ == pre.props@.push(
                PropEntry {
                    name,
                    prop: Property::Stored {
                        value,
                        attributes: PropertyAttributes { bits: 0 },
                    },
                },
            )
            &&& post.slots == pre.slots
            &&& post.methods == pre.methods
            &&& post.proto == pre.proto
            &&& post.trait_source == pre.trait_source
            &&& post.enumerants == pre.enumerants
            &&& post.interfaces == pre.interfaces
        },
        Some(Property::Slot { slot_id }) => {
            if slot_id < pre.slots@.len() {
                &&& r == Ok::<SetOutcome, EngineError>(SetOutcome::Done)
                &&& post.slots@ == pre.slots@.update(
                    slot_id as int,
                    SlotCell { value, is_const: pre.slots@[slot_id as int].is_const },
                )
                &&& post.props == pre.props
                &&& post.methods == pre.methods
                &&& post.proto == pre.proto
                &&& post.trait_source == pre.trait_source
                &&& post.enumerants == pre.enumerants
                &&& post.interfaces == pre.interfaces
            } else {
                r == Err::<SetOutcome, EngineError>(
                    EngineError::SlotOutOfBounds { id: slot_id },
                ) && post == pre
            }
        },
        Some(Property::Stored { value: _, attributes }) => {
            &&& r == Ok::<SetOutcome, EngineError>(SetOutcome::Done)
            &&& post.props@ == pre.props@.update(
                spec_find_index(pre.props@, name@),
                PropEntry {
                    name: pre.props@[spec_find_index(pre.props@, name@)].name,
                    prop: Property::Stored { value, attributes },
                },
            )
            &&& post.slots == pre.slots
            &&& post.methods == pre.methods
            &&& post.proto == pre.proto
            &&& post.trait_source == pre.trait_source
            &&& post.enumerants == pre.enumerants
            &&& post.interfaces == pre.interfaces
        },
        Some(Property::Virtual { set: Some(s), .. }) => {
            &&& r == Ok::<SetOutcome, EngineError>(
                SetOutcome::CallSetter {
                    setter: s,
                    receiver,
                    base_proto: spec_opt_or(base_proto, pre.proto),
                    value,
                },
            )
            &&& post == pre
        },
        Some(Property::Virtual { set: None, .. }) => {
            r == Ok::<SetOutcome, EngineError>(SetOutcome::Done) && post == pre
        },
    }
}

/// The state relation of [`ObjData::set_slot`].
pub open spec fn spec_set_slot(
    pre: ObjData,
    post: ObjData,
    id: u32,
    value: Value,
    strict: bool,
    r: Result<(), EngineError>,
) -> bool {
    if id >= pre.slots@.len() {
        r == Err::<(), EngineError>(EngineError::SlotOutOfBounds { id }) && post == pre
    } else if pre.slots@[id as int].is_const {
        if strict {
            r == Err::<(), EngineError>(EngineError::WriteToConst) && post == pre
        } else {
            r == Ok::<(), EngineError>(()) && post == pre
        }
    } else {
        r == Ok::<(), EngineError>(()) && post.slots@ == pre.slots@.update(
            id as int,
            SlotCell { value, is_const: false },
        ) && post.props == pre.props && post.methods == pre.methods && post.proto == pre.proto
            && post.trait_source == pre.trait_source && post.enumerants == pre.enumerants
            && post.interfaces == pre.interfaces
    }
}

/// The state relation of [`ObjData::delete_property`]: only an
/// unrestricted stored property can go; its entry leaves the map and its
/// name leaves the enumeration order, so that the order keeps listing only
/// bound names.
pub open spec fn spec_delete(pre: ObjData, post: ObjData, name: QNameView, r: bool) -> bool {
    match spec_find_prop(pre.props@, name) {
        None => r == false && post == pre,
        Some(p) => if !spec_can_delete(p) {
            r == false && post == pre
        } else {
            &&& r == true
            &&& post.props@ == pre.props@.remove(spec_find_index(pre.props@, name))
            &&& post.enumerants@ == if spec_enum_contains(pre.enumerants@, name) {
                pre.enumerants@.remove(spec_enum_index(pre.enumerants@, name))
            } else {
                pre.enumerants@
            }
            &&& post.slots == pre.slots
            &&& post.methods == pre.methods
            &&& post.proto == pre.proto
            &&& post.trait_source == pre.trait_source
            &&& post.interfaces == pre.interfaces
        },
    }
}

/// Pads the dispatch table with empty entries up to and including `idx`.
fn grow_methods(d: &mut ObjData, idx: usize)
    requires
        old(d).methods@.len() <= idx,
    ensures
        final(d).methods@.len() == idx + 1,
        forall|j: int|
            0 <= j < old(d).methods@.len() ==> final(d).methods@[j] == old(d).methods@[j],
        forall|j: int| old(d).methods@.len() <= j <= idx ==> final(d).methods@[j] is None,
        final(d).props == old(d).props,
        final(d).slots == old(d).slots,
        final(d).proto == old(d).proto,
        final(d).trait_source == old(d).trait_source,
        final(d).enumerants == old(d).enumerants,
        final(d).interfaces == old(d).interfaces,
{
    while d.methods.len() <= idx
        invariant
            d.methods@.len() >= old(d).methods@.len(),
            d.methods@.len() <= idx + 1,
            forall|j: int| 0 <= j < old(d).methods@.len() ==> d.methods@[j] == old(d).methods@[j],
            forall|j: int|
                old(d).methods@.len() <= j < d.methods@.len() ==> d.methods@[j] is None,
            d.props == old(d).props,
            d.slots == old(d).slots,
            d.proto == old(d).proto,
            d.trait_source == old(d).trait_source,
            d.enumerants == old(d).enumerants,
            d.interfaces == old(d).interfaces,
        decreases idx + 1 - d.methods@.len(),
    {
        d.methods.push(None);
    }
}

/// Pads the slot array with empty writable cells up to and including `idx`.
fn grow_slots(d: &mut ObjData, idx: usize)
    requires
        old(d).slots@.len() <= idx,
    ensures
        final(d).slots@.len() == idx + 1,
        forall|j: int| 0 <= j < old(d).slots@.len() ==> final(d).slots@[j] == old(d).slots@[j],
        forall|j: int|
            old(d).slots@.len() <= j <= idx ==> final(d).slots@[j] == (SlotCell {
                value: Value::Undefined,
                is_const: false,
            }),
        final(d).props == old(d).props,
        final(d).methods == old(d).methods,
        final(d).proto == old(d).proto,
        final(d).trait_source == old(d).trait_source,
        final(d).enumerants == old(d).enumerants,
        final(d).interfaces == old(d).interfaces,
{
    while d.slots.len() <= idx
        invariant
            d.slots@.len() >= old(d).slots@.len(),
            d.slots@.len() <= idx + 1,
            forall|j: int| 0 <= j < old(d).slots@.len() ==> d.slots@[j] == old(d).slots@[j],
            forall|j: int|
                old(d).slots@.len() <= j < d.slots@.len() ==> d.slots@[j] == (SlotCell {
                    value: Value::Undefined,
                    is_const: false,
                }),
            d.props == old(d).props,
            d.methods == old(d).methods,
            d.proto == old(d).proto,
            d.trait_source == old(d).trait_source,
            d.enumerants == old(d).enumerants,
            d.interfaces == old(d).interfaces,
        decreases idx + 1 - d.slots@.len(),
    {
        d.slots.push(SlotCell::empty());
    }
}

impl ObjData {
    /// Looks up `name` on this object alone and resolves the entry: a value
    /// comes back directly, a getter comes back as a call instruction bound
    /// to the original receiver.
    pub fn get_property_local(
        &self,
        receiver: usize,
        base_proto: Option<usize>,
        name: &QName,
    ) -> (r: Result<GetOutcome, EngineError>)
        ensures
            spec_get_local(*self, receiver, base_proto, name@, r),
    {
        proof {
            lemma_find_prop_properties(self.props@, name@);
        }
        match self.find_prop_index(name) {
            None => Ok(GetOutcome::Value(Value::Undefined)),
            Some(i) => {
                let prop = self.props[i].prop.clone();
                match prop {
                    Property::Stored { value, .. } => Ok(GetOutcome::Value(value)),
                    Property::Virtual { get: Some(g), .. } => Ok(
                        GetOutcome::CallGetter {
                            getter: g,
                            receiver,
                            base_proto: match base_proto {
                                Some(b) => Some(b),
                                None => self.proto,
                            },
                        },
                    ),
                    Property::Virtual { get: None, .. } => Ok(
                        GetOutcome::Value(Value::Undefined),
                    ),
                    Property::Slot { slot_id } => {
                        if (slot_id as usize) < self.slots.len() {
                            Ok(GetOutcome::Value(self.slots[slot_id as usize].value.clone()))
                        } else {
                            Err(EngineError::SlotOutOfBounds { id: slot_id })
                        }
                    },
                }
            },
        }
    }

    /// Binds `prop` to `name`: replaces the one existing entry, or appends
    /// a fresh one. The well-formedness of the storage is preserved.
    fn props_insert(&mut self, name: QName, prop: Property)
        requires
            wf_data(*old(self)),
            match prop {
                Property::Slot { slot_id } => slot_id < old(self).slots@.len(),
                _ => true,
            },
        ensures
            wf_data(*final(self)),
            spec_props_insert(old(self).props@, final(self).props@, name, prop),
            final(self).slots == old(self).slots,
            final(self).methods == old(self).methods,
            final(self).proto == old(self).proto,
            final(self).trait_source == old(self).trait_source,
            final(self).enumerants == old(self).enumerants,
            final(self).interfaces == old(self).interfaces,
    {
        proof {
            lemma_find_prop_properties(self.props@, name@);
        }
        let ghost pre = self.props@;
        match self.find_prop_index(&name) {
            Some(i) => {
                self.props.set(i, PropEntry { name, prop });
                proof {
                    let post = self.props@;
                    assert forall|k: int| 0 <= k < post.len() implies (#[trigger] post[k]).name@
                        == pre[k].name@ by {}
                    assert forall|a: int, b: int|
                        0 <= a < b < post.len() implies (#[trigger] post[a]).name@ != (
                    #[trigger] post[b]).name@ by {
                        assert(pre[a].name@ != pre[b].name@);
                    }
                }
            },
            None => {
                self.props.push(PropEntry { name, prop });
                proof {
                    let post = self.props@;
                    assert forall|a: int, b: int|
                        0 <= a < b < post.len() implies (#[trigger] post[a]).name@ != (
                    #[trigger] post[b]).name@ by {
                        if b < pre.len() {
                            assert(pre[a].name@ != pre[b].name@);
                        } else {
                            assert(post[b].name@ == name@);
                            assert(pre[a].name@ != name@);
                        }
                    }
                }
            },
        }
        proof {
            let post = self.props@;
            lemma_props_insert_effect(pre, post, name, prop);
            assert forall|k: int| 0 <= k < self.enumerants@.len() implies spec_has_prop(
                post,
                (#[trigger] self.enumerants@[k])@,
            ) by {
                if self.enumerants@[k]@ == name@ {
                } else {
                }
            }
            assert forall|k: int| 0 <= k < post.len() implies match (#[trigger] post[k]).prop {
                Property::Slot { slot_id } => slot_id < self.slots@.len(),
                _ => true,
            } by {
                if spec_has_prop(pre, name@) {
                    if k != spec_find_index(pre, name@) {
                        assert(post[k] == pre[k]);
                    }
                } else {
                    if k < pre.len() {
                        assert(post[k] == pre[k]);
                    }
                }
            }
        }
    }

    /// Grows the dispatch table as needed and records `function` at
    /// `disp_id`. A zero id means "unallocated" and records nothing.
    fn methods_install(&mut self, disp_id: u32, function: usize)
        ensures
            spec_methods_install(old(self).methods@, final(self).methods@, disp_id, function),
            final(self).props == old(self).props,
            final(self).slots == old(self).slots,
            final(self).proto == old(self).proto,
            final(self).trait_source == old(self).trait_source,
            final(self).enumerants == old(self).enumerants,
            final(self).interfaces == old(self).interfaces,
    {
        if disp_id > 0 {
            let idx = disp_id as usize;
            if self.methods.len() <= idx {
                grow_methods(self, idx);
            }
            self.methods.set(idx, Some(function));
        }
    }

    /// Grows the slot array with empty cells as needed and stores `cell`
    /// at `id`.
    fn slots_install(&mut self, id: u32, cell: SlotCell)
        ensures
            spec_slots_install(old(self).slots@, final(self).slots@, id, cell),
            final(self).props == old(self).props,
            final(self).methods == old(self).methods,
            final(self).proto == old(self).proto,
            final(self).trait_source == old(self).trait_source,
            final(self).enumerants == old(self).enumerants,
            final(self).interfaces == old(self).interfaces,
    {
        let idx = id as usize;
        if self.slots.len() <= idx {
            grow_slots(self, idx);
        }
        self.slots.set(idx, cell);
    }

    /// Assigns to the property bound to `name` on this object alone: a slot
    /// reference writes the slot array, a setter comes back as a call
    /// instruction carrying the value, and a fresh name becomes an
    /// enumerable dynamic property.
    pub fn set_property_local(
        &mut self,
        receiver: usize,
        base_proto: Option<usize>,
        name: &QName,
        value: Value,
        strict: bool,
    ) -> (r: Result<SetOutcome, EngineError>)
        requires
            wf_data(*old(self)),
        ensures
            wf_data(*final(self)),
            spec_set_local(
                *old(self),
                *final(self),
                receiver,
                base_proto,
                *name,
                value,
                strict,
                r,
            ),
    {
        proof {
            lemma_find_prop_properties(self.props@, name@);
        }
        match self.find_prop_index(name) {
            None => {
                let entry_name = name.clone();
                let enum_name = name.clone();
                let ghost pre = *self;
                self.props_insert(
                    entry_name,
                    Property::Stored { value, attributes: PropertyAttributes { bits: 0 } },
                );
                proof {
                    assert forall|k: int| 0 <= k < pre.enumerants@.len() implies (
                    #[trigger] pre.enumerants@[k])@ != name@ by {
                        assert(spec_has_prop(pre.props@, pre.enumerants@[k]@));
                    }
                }
                self.enumerants.push(enum_name);
                proof {
                    let post = *self;
                    lemma_props_insert_effect(
                        pre.props@,
                        post.props@,
                        *name,
                        Property::Stored { value, attributes: PropertyAttributes { bits: 0 } },
                    );
                    assert forall|k: int| 0 <= k < post.enumerants@.len() implies spec_has_prop(
                        post.props@,
                        (#[trigger] post.enumerants@[k])@,
                    ) by {
                        if k < pre.enumerants@.len() {
                            assert(spec_has_prop(pre.props@, post.enumerants@[k]@));
                        } else {
                            assert(post.enumerants@[k]@ == name@);
                        }
                    }
                }
                Ok(SetOutcome::Done)
            },
            Some(i) => {
                let prop = self.props[i].prop.clone();
                match prop {
                    Property::Slot { slot_id } => {
                        let res = self.set_slot(slot_id, value, strict);
                        match res {
                            Ok(()) => Ok(SetOutcome::Done),
                            Err(e) => Err(e),
                        }
                    },
                    Property::Stored { value: _, attributes } => {
                        if attributes.contains(ATTR_READ_ONLY) {
                            if strict {
                                Err(EngineError::WriteToConst)
                            } else {
                                Ok(SetOutcome::Done)
                            }
                        } else {
                            let entry_name = self.props[i].name.clone();
                            self.props_insert(
                                entry_name,
                                Property::Stored { value, attributes },
                            );
                            Ok(SetOutcome::Done)
                        }
                    },
                    Property::Virtual { set: Some(s), .. } => Ok(
                        SetOutcome::CallSetter {
                            setter: s,
                            receiver,
                            base_proto: match base_proto {
                                Some(b) => Some(b),
                                None => self.proto,
                            },
                            value,
                        },
                    ),
                    Property::Virtual { set: None, .. } => Ok(SetOutcome::Done),
                }
            },
        }
    }

    /// Initializes the property bound to `name` on this object alone.
    /// Unlike assignment, initialization writes constants and read-only
    /// entries, and a fresh name is not made enumerable.
    pub fn init_property_local(
        &mut self,
        receiver: usize,
        base_proto: Option<usize>,
        name: &QName,
        value: Value,
    ) -> (r: Result<SetOutcome, EngineError>)
        requires
            wf_data(*old(self)),
        ensures
            wf_data(*final(self)),
            spec_init_local(*old(self), *final(self), receiver, base_proto, *name, value, r),
    {
        proof {
            lemma_find_prop_properties(self.props@, name@);
        }
        match self.find_prop_index(name) {
            None => {
                let entry_name = name.clone();
                self.props_insert(
                    entry_name,
                    Property::Stored { value, attributes: PropertyAttributes { bits: 0 } },
                );
                Ok(SetOutcome::Done)
            },
            Some(i) => {
                let prop = self.props[i].prop.clone();
                match prop {
                    Property::Slot { slot_id } => {
                        let res = self.init_slot(slot_id, value);
                        match res {
                            Ok(()) => Ok(SetOutcome::Done),
                            Err(e) => Err(e),
                        }
                    },
                    Property::Stored { value: _, attributes } => {
                        let entry_name = self.props[i].name.clone();
                        self.props_insert(entry_name, Property::Stored { value, attributes });
                        Ok(SetOutcome::Done)
                    },
                    Property::Virtual { set: Some(s), .. } => Ok(
                        SetOutcome::CallSetter {
                            setter: s,
                            receiver,
                            base_proto: match base_proto {
                                Some(b) => Some(b),
                                None => self.proto,
                            },
                            value,
                        },
                    ),
                    Property::Virtual { set: None, .. } => Ok(SetOutcome::Done),
                }
            },
        }
    }

    /// Removes the property bound to `name` when deletion is allowed, and
    /// its name from the enumeration order with it. Returns whether the
    /// property was removed.
    pub fn delete_property(&mut self, name: &QName) -> (r: bool)
        requires
            wf_data(*old(self)),
        ensures
            wf_data(*final(self)),
            spec_delete(*old(self), *final(self), name@, r),
    {
        proof {
            lemma_find_prop_properties(self.props@, name@);
        }
        match self.find_prop_index(name) {
            None => false,
            Some(i) => {
                let can = self.props[i].prop.can_delete();
                if !can {
                    false
                } else {
                    let ghost pre = *self;
                    self.props.remove(i);
                    proof {
                        lemma_find_prop_remove(pre.props@, i as int, name@);
                        let post_props = self.props@;
                        assert forall|a: int, b: int|
                            0 <= a < b < post_props.len() implies (
                        #[trigger] post_props[a]).name@ != (#[trigger] post_props[b]).name@ by {
                            let a0 = if a < i {
                                a
                            } else {
                                a + 1
                            };
                            let b0 = if b < i {
                                b
                            } else {
                                b + 1
                            };
                            assert(post_props[a] == pre.props@[a0]);
                            assert(post_props[b] == pre.props@[b0]);
                            assert(pre.props@[a0].name@ != pre.props@[b0].name@);
                        }
                        assert forall|k: int| 0 <= k < post_props.len() implies match (
                        #[trigger] post_props[k]).prop {
                            Property::Slot { slot_id } => slot_id < self.slots@.len(),
                            _ => true,
                        } by {
                            let k0 = if k < i {
                                k
                            } else {
                                k + 1
                            };
                            assert(post_props[k] == pre.props@[k0]);
                        }
                    }
                    // Keep the enumeration order listing only bound names:
                    // the deleted name leaves it too.
                    let mut j: usize = 0;
                    let mut found: Option<usize> = None;
                    while j < self.enumerants.len() && found.is_none()
                        invariant
                            j <= self.enumerants@.len(),
                            match found {
                                Some(f) => f < self.enumerants@.len()
                                    && self.enumerants@[f as int]@ == name@ && j == f + 1,
                                None => forall|k: int|
                                    0 <= k < j ==> (#[trigger] self.enumerants@[k])@ != name@,
                            },
                        decreases self.enumerants@.len() - j,
                    {
                        if self.enumerants[j].qname_eq(name) {
                            found = Some(j);
                        }
                        j += 1;
                    }
                    let ghost mid = *self;
                    match found {
                        Some(f) => {
                            self.enumerants.remove(f);
                            proof {
                                assert(spec_enum_contains(mid.enumerants@, name@));
                                let c = spec_enum_index(mid.enumerants@, name@);
                                assert(0 <= c < mid.enumerants@.len()
                                    && mid.enumerants@[c]@ == name@);
                                if c != f {
                                    assert(mid.enumerants@[c]@ != mid.enumerants@[f as int]@);
                                }
                            }
                        },
                        None => {
                            proof {
                                if spec_enum_contains(mid.enumerants@, name@) {
                                    let c = spec_enum_index(mid.enumerants@, name@);
                                    assert(0 <= c < mid.enumerants@.len()
                                        && mid.enumerants@[c]@ == name@);
                                }
                            }
                        },
                    }
                    proof {
                        let post = *self;
                        assert forall|a: int, b: int|
                            0 <= a < b < post.enumerants@.len() implies (
                        #[trigger] post.enumerants@[a])@ != (#[trigger] post.enumerants@[b])@ by {
                            match found {
                                Some(f) => {
                                    let a0 = if a < f {
                                        a
                                    } else {
                                        a + 1
                                    };
                                    let b0 = if b < f {
                                        b
                                    } else {
                                        b + 1
                                    };
                                    assert(post.enumerants@[a] == mid.enumerants@[a0]);
                                    assert(post.enumerants@[b] == mid.enumerants@[b0]);
                                },
                                None => {},
                            }
                        }
                        assert forall|k: int| 0 <= k < post.enumerants@.len() implies
                            spec_has_prop(post.props@, (#[trigger] post.enumerants@[k])@) by {
                            let k0 = match found {
                                Some(f) => if k < f {
                                    k
                                } else {
                                    k + 1
                                },
                                None => k,
                            };
                            assert(post.enumerants@[k] == mid.enumerants@[k0]);
                            assert(spec_has_prop(pre.props@, mid.enumerants@[k0]@));
                            lemma_find_prop_remove(pre.props@, i as int, mid.enumerants@[k0]@);
                            assert(mid.enumerants@[k0]@ != name@) by {
                                match found {
                                    Some(f) => {
                                        if k0 != f {
                                            assert(mid.enumerants@[k0]@ != mid.enumerants@[
                                                f as int]@);
                                        }
                                    },
                                    None => {},
                                }
                            }
                        }
                    }
                    true
                }
            },
        }
    }

    /// Installs a bound method as a non-virtual property, plus a dispatch
    /// table entry when the dispatch id is nonzero.
    pub fn install_method(&mut self, name: QName, disp_id: u32, function: usize)
        requires
            wf_data(*old(self)),
        ensures
            wf_data(*final(self)),
            spec_props_insert(
                old(self).props@,
                final(self).props@,
                name,
                Property::Stored {
                    value: Value::Object(function),
                    attributes: PropertyAttributes { bits: ATTR_DONT_DELETE | ATTR_DONT_ENUM },
                },
            ),
            spec_methods_install(old(self).methods@, final(self).methods@, disp_id, function),
            final(self).slots == old(self).slots,
            final(self).proto == old(self).proto,
            final(self).trait_source == old(self).trait_source,
            final(self).enumerants == old(self).enumerants,
            final(self).interfaces == old(self).interfaces,
    {
        self.methods_install(disp_id, function);
        self.props_insert(name, Property::new_method(function));
    }

    /// Installs a getter. The two halves of a virtual property can arrive
    /// in either order, so the getter merges into an existing virtual entry
    /// and never clobbers an already-installed setter; a non-virtual entry
    /// under the same name refuses the install. The dispatch table entry is
    /// recorded in every case, as installation order demands.
    pub fn install_getter(&mut self, name: QName, disp_id: u32, function: usize) -> (r: Result<
        (),
        EngineError,
    >)
        requires
            wf_data(*old(self)),
        ensures
            wf_data(*final(self)),
            spec_methods_install(old(self).methods@, final(self).methods@, disp_id, function),
            match spec_find_prop(old(self).props@, name@) {
                None => r == Ok::<(), EngineError>(()) && spec_props_insert(
                    old(self).props@,
                    final(self).props@,
                    name,
                    Property::Virtual { get: Some(function), set: None },
                ),
                Some(Property::Virtual { get: _, set }) => r == Ok::<(), EngineError>(())
                    && spec_props_insert(
                    old(self).props@,
                    final(self).props@,
                    name,
                    Property::Virtual { get: Some(function), set },
                ),
                Some(_) => r == Err::<(), EngineError>(EngineError::NotVirtual)
                    && final(self).props == old(self).props,
            },
            final(self).slots == old(self).slots,
            final(self).proto == old(self).proto,
            final(self).trait_source == old(self).trait_source,
            final(self).enumerants == old(self).enumerants,
            final(self).interfaces == old(self).interfaces,
    {
        proof {
            lemma_find_prop_properties(self.props@, name@);
        }
        self.methods_install(disp_id, function);
        match self.find_prop_index(&name) {
            None => {
                self.props_insert(name, Property::Virtual { get: Some(function), set: None });
                Ok(())
            },
            Some(i) => {
                let prop = self.props[i].prop.clone();
                match prop {
                    Property::Virtual { get: _, set } => {
                        self.props_insert(name, Property::Virtual { get: Some(function), set });
                        Ok(())
                    },
                    _ => Err(EngineError::NotVirtual),
                }
            },
        }
    }

    /// Installs a setter, merging into an existing virtual entry without
    /// clobbering an already-installed getter; the mirror image of
    /// [`ObjData::install_getter`].
    pub fn install_setter(&mut self, name: QName, disp_id: u32, function: usize) -> (r: Result<
        (),
        EngineError,
    >)
        requires
            wf_data(*old(self)),
        ensures
            wf_data(*final(self)),
            spec_methods_install(old(self).methods@, final(self).methods@, disp_id, function),
            match spec_find_prop(old(self).props@, name@) {
                None => r == Ok::<(), EngineError>(()) && spec_props_insert(
                    old(self).props@,
                    final(self).props@,
                    name,
                    Property::Virtual { get: None, set: Some(function) },
                ),
                Some(Property::Virtual { get, set: _ }) => r == Ok::<(), EngineError>(())
                    && spec_props_insert(
                    old(self).props@,
                    final(self).props@,
                    name,
                    Property::Virtual { get, set: Some(function) },
                ),
                Some(_) => r == Err::<(), EngineError>(EngineError::NotVirtual)
                    && final(self).props == old(self).props,
            },
            final(self).slots == old(self).slots,
            final(self).proto == old(self).proto,
            final(self).trait_source == old(self).trait_source,
            final(self).enumerants == old(self).enumerants,
            final(self).interfaces == old(self).interfaces,
    {
        proof {
            lemma_find_prop_properties(self.props@, name@);
        }
        self.methods_install(disp_id, function);
        match self.find_prop_index(&name) {
            None => {
                self.props_insert(name, Property::Virtual { get: None, set: Some(function) });
                Ok(())
            },
            Some(i) => {
                let prop = self.props[i].prop.clone();
                match prop {
                    Property::Virtual { get, set: _ } => {
                        self.props_insert(name, Property::Virtual { get, set: Some(function) });
                        Ok(())
                    },
                    _ => Err(EngineError::NotVirtual),
                }
            },
        }
    }

    /// Installs a built-in value property, without touching the enumeration
    /// order.
    pub fn install_dynamic_property(&mut self, name: QName, value: Value) -> (r: Result<
        (),
        EngineError,
    >)
        requires
            wf_data(*old(self)),
        ensures
            wf_data(*final(self)),
            r == Ok::<(), EngineError>(()),
            spec_props_insert(
                old(self).props@,
                final(self).props@,
                name,
                Property::Stored { value, attributes: PropertyAttributes { bits: 0 } },
            ),
            final(self).slots == old(self).slots,
            final(self).methods == old(self).methods,
            final(self).proto == old(self).proto,
            final(self).trait_source == old(self).trait_source,
            final(self).enumerants == old(self).enumerants,
            final(self).interfaces == old(self).interfaces,
    {
        self.props_insert(name, Property::new_dynamic_property(value));
        Ok(())
    }

    /// Installs a slot-backed trait property seeded with its default value.
    /// A zero slot id means the id was left for the engine to assign; no
    /// slot is allocated for it and the value is stored as a bare property.
    pub fn install_slot(&mut self, name: QName, id: u32, value: Value)
        requires
            wf_data(*old(self)),
        ensures
            wf_data(*final(self)),
            spec_install_slot_like(*old(self), *final(self), name, id, value, false),
    {
        if id == 0 {
            self.props_insert(name, Property::new_stored(value));
        } else {
            self.slots_install(id, SlotCell::new(value));
            self.props_insert(name, Property::new_slot(id));
        }
    }

    /// Installs a constant trait property seeded with its value; the slot
    /// cell refuses later assignment. A zero slot id stores the value as a
    /// bare read-only property.
    pub fn install_const(&mut self, name: QName, id: u32, value: Value)
        requires
            wf_data(*old(self)),
        ensures
            wf_data(*final(self)),
            spec_install_slot_like(*old(self), *final(self), name, id, value, true),
    {
        if id == 0 {
            self.props_insert(name, Property::new_const(value));
        } else {
            self.slots_install(id, SlotCell::new_const(value));
            self.props_insert(name, Property::new_slot(id));
        }
    }

    /// Appends a name to the enumeration order. The name must be bound and
    /// not yet enumerable.
    pub fn add_enumerant(&mut self, name: QName)
        requires
            wf_data(*old(self)),
            spec_has_prop(old(self).props@, name@),
            !spec_enum_contains(old(self).enumerants@, name@),
        ensures
            wf_data(*final(self)),
            final(self).enumerants@ == old(self).enumerants@.push(name),
            final(self).props == old(self).props,
            final(self).slots == old(self).slots,
            final(self).methods == old(self).methods,
            final(self).proto == old(self).proto,
            final(self).trait_source == old(self).trait_source,
            final(self).interfaces == old(self).interfaces,
    {
        let ghost pre = *self;
        self.enumerants.push(name);
        proof {
            let post = *self;
            assert forall|a: int, b: int|
                0 <= a < b < post.enumerants@.len() implies (#[trigger] post.enumerants@[a])@ != (
            #[trigger] post.enumerants@[b])@ by {
                if b < pre.enumerants@.len() {
                } else {
                    assert(post.enumerants@[b] == name);
                    assert(post.enumerants@[a] == pre.enumerants@[a]);
                }
            }
            assert forall|k: int| 0 <= k < post.enumerants@.len() implies spec_has_prop(
                post.props@,
                (#[trigger] post.enumerants@[k])@,
            ) by {
                if k < pre.enumerants@.len() {
                    assert(post.enumerants@[k] == pre.enumerants@[k]);
                } else {
                    assert(post.enumerants@[k] == name);
                }
            }
        }
    }

    /// Removes a name from the enumeration order if it is there.
    pub fn remove_enumerant(&mut self, name: &QName)
        requires
            wf_data(*old(self)),
        ensures
            wf_data(*final(self)),
            final(self).enumerants@ == if spec_enum_contains(old(self).enumerants@, name@) {
                old(self).enumerants@.remove(spec_enum_index(old(self).enumerants@, name@))
            } else {
                old(self).enumerants@
            },
            final(self).props == old(self).props,
            final(self).slots == old(self).slots,
            final(self).methods == old(self).methods,
            final(self).proto == old(self).proto,
            final(self).trait_source == old(self).trait_source,
            final(self).interfaces == old(self).interfaces,
    {
        let mut j: usize = 0;
        let mut found: Option<usize> = None;
        while j < self.enumerants.len() && found.is_none()
            invariant
                j <= self.enumerants@.len(),
                match found {
                    Some(f) => f < self.enumerants@.len() && self.enumerants@[f as int]@ == name@
                        && j == f + 1,
                    None => forall|k: int|
                        0 <= k < j ==> (#[trigger] self.enumerants@[k])@ != name@,
                },
            decreases self.enumerants@.len() - j,
        {
            if self.enumerants[j].qname_eq(name) {
                found = Some(j);
            }
            j += 1;
        }
        let ghost mid = *self;
        match found {
            Some(f) => {
                self.enumerants.remove(f);
                proof {
                    assert(spec_enum_contains(mid.enumerants@, name@));
                    let c = spec_enum_index(mid.enumerants@, name@);
                    assert(0 <= c < mid.enumerants@.len() && mid.enumerants@[c]@ == name@);
                    if c != f {
                        assert(mid.enumerants@[c]@ != mid.enumerants@[f as int]@);
                    }
                    let post = *self;
                    assert forall|a: int, b: int|
                        0 <= a < b < post.enumerants@.len() implies (
                    #[trigger] post.enumerants@[a])@ != (#[trigger] post.enumerants@[b])@ by {
                        let a0 = if a < f {
                            a
                        } else {
                            a + 1
                        };
                        let b0 = if b < f {
                            b
                        } else {
                            b + 1
                        };
                        assert(post.enumerants@[a] == mid.enumerants@[a0]);
                        assert(post.enumerants@[b] == mid.enumerants@[b0]);
                    }
                    assert forall|k: int| 0 <= k < post.enumerants@.len() implies spec_has_prop(
                        post.props@,
                        (#[trigger] post.enumerants@[k])@,
                    ) by {
                        let k0 = if k < f {
                            k
                        } else {
                            k + 1
                        };
                        assert(post.enumerants@[k] == mid.enumerants@[k0]);
                    }
                }
            },
            None => {
                proof {
                    if spec_enum_contains(mid.enumerants@, name@) {
                        let c = spec_enum_index(mid.enumerants@, name@);
                        assert(0 <= c < mid.enumerants@.len() && mid.enumerants@[c]@ == name@);
                    }
                }
            },
        }
    }

    /// The interfaces implemented by this object.
    pub fn interfaces(&self) -> (r: Vec<usize>)
        ensures
            r@ == self.interfaces@,
    {
        let mut r: Vec<usize> = Vec::new();
        let mut i: usize = 0;
        while i < self.interfaces.len()
            invariant
                i <= self.interfaces@.len(),
                r@ == self.interfaces@.subrange(0, i as int),
            decreases self.interfaces@.len() - i,
        {
            r.push(self.interfaces[i]);
            proof {
                assert(r@ =~= self.interfaces@.subrange(0, i + 1));
            }
            i += 1;
        }
        proof {
            assert(r@ =~= self.interfaces@);
        }
        r
    }

    /// Replaces the interface list.
    pub fn set_interfaces(&mut self, iface_list: Vec<usize>)
        requires
            wf_data(*old(self)),
        ensures
            wf_data(*final(self)),
            final(self).interfaces == iface_list,
            final(self).props == old(self).props,
            final(self).slots == old(self).slots,
            final(self).methods == old(self).methods,
            final(self).proto == old(self).proto,
            final(self).trait_source == old(self).trait_source,
            final(self).enumerants == old(self).enumerants,
    {
        self.interfaces = iface_list;
    }

    /// Replaces the prototype link.
    pub fn set_proto(&mut self, proto: usize)
        requires
            wf_data(*old(self)),
        ensures
            wf_data(*final(self)),
            final(self).proto == Some(proto),
            final(self).props == old(self).props,
            final(self).slots == old(self).slots,
            final(self).methods == old(self).methods,
            final(self).trait_source == old(self).trait_source,
            final(self).enumerants == old(self).enumerants,
            final(self).interfaces == old(self).interfaces,
    {
        self.proto = Some(proto);
    }
}

/// The state relation shared by slot and const installation: with a real
/// slot id the slot array grows and the property becomes a slot reference;
/// with the zero id the value is stored as a bare property, read-only for a
/// const.
pub open spec fn spec_install_slot_like(
    pre: ObjData,
    post: ObjData,
    name: QName,
    id: u32,
    value: Value,
    is_const: bool,
) -> bool {
    &&& if id == 0 {
        &&& spec_props_insert(
            pre.props@,
            post.props@,
            name,
            Property::Stored {
                value,
                attributes: PropertyAttributes {
                    bits: if is_const {
                        ATTR_READ_ONLY | ATTR_DONT_DELETE
                    } else {
                        ATTR_DONT_DELETE
                    },
                },
            },
        )
        &&& post.slots == pre.slots
    } else {
        &&& spec_props_insert(pre.props@, post.props@, name, Property::Slot { slot_id: id })
        &&& spec_slots_install(pre.slots@, post.slots@, id, SlotCell { value, is_const })
    }
    &&& post.methods == pre.methods
    &&& post.proto == pre.proto
    &&& post.trait_source == pre.trait_source
    &&& post.enumerants == pre.enumerants
    &&& post.interfaces == pre.interfaces
}

} // verus!
