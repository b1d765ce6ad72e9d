//! Class definitions and their trait tables.
//!
//! A class is a name, an optional superclass reference (a multiname,
//! resolved through the scope chain only when a nested class is
//! materialized), and two immutable trait tables: instance traits for
//! objects of the class, class traits for the constructor itself. All
//! lookups here are pure reads of one class — one level only; the
//! resolution engine walks the inheritance chain by visiting each ancestor
//! in turn.

use vstd::prelude::*;

use crate::names::{Multiname, Namespace, QName, QNameView};
use crate::traits::{spec_trait_like, Trait};

verus! {

/// The class declares no dynamic properties on its instances.
pub const CLASS_SEALED: u8 = 1;

/// The class may not be extended.
pub const CLASS_FINAL: u8 = 2;

/// The class is an interface.
pub const CLASS_INTERFACE: u8 = 4;

/// The attribute bits a class can carry.
#[derive(Clone, Copy, Debug, PartialEq, Eq, Structural)]
pub struct ClassAttributes {
    pub bits: u8,
}

impl ClassAttributes {
    /// No attribute set.
    pub fn empty() -> (r: ClassAttributes)
        ensures
            r.bits == 0,
    {
        ClassAttributes { bits: 0 }
    }

    /// Attributes with exactly the given bits.
    pub fn with_bits(bits: u8) -> (r: ClassAttributes)
        ensures
            r.bits == bits,
    {
        ClassAttributes { bits }
    }

    /// True when every bit of `flag` is set.
    pub fn contains(&self, flag: u8) -> (r: bool)
        ensures
            r == (self.bits & flag == flag),
    {
        self.bits & flag == flag
    }
}

/// The traits of `s` whose name is `name`, in declaration order. More
/// than one trait may legitimately match: a getter and a setter declared
/// separately share their name.
pub open spec fn spec_matching_traits(s: Seq<Trait>, name: QNameView) -> Seq<Trait>
    decreases s.len(),
{
    if s.len() == 0 {
        Seq::empty()
    } else {
        let rest = spec_matching_traits(s.drop_first(), name);
        if s[0].name@ == name {
            seq![s[0]] + rest
        } else {
            rest
        }
    }
}

/// Whether some trait of `s` carries `name`.
pub open spec fn spec_has_matching(s: Seq<Trait>, name: QNameView) -> bool {
    exists|i: int| 0 <= i < s.len() && (#[trigger] s[i]).name@ == name
}

/// The namespace of the first trait of `s` whose local name is `local`.
pub open spec fn spec_resolve_any(s: Seq<Trait>, local: Seq<char>) -> Option<Namespace>
    decreases s.len(),
{
    if s.len() == 0 {
        None
    } else if s[0].name@.name == local {
        Some(s[0].name.ns)
    } else {
        spec_resolve_any(s.drop_first(), local)
    }
}

/// Appending a trait extends the matching list at its end exactly when the
/// trait carries the name.
pub proof fn lemma_matching_push(s: Seq<Trait>, t: Trait, name: QNameView)
    ensures
        spec_matching_traits(s.push(t), name) == spec_matching_traits(s, name) + (if t.name@
            == name {
            seq![t]
        } else {
            Seq::<Trait>::empty()
        }),
    decreases s.len(),
{
    let p = s.push(t);
    let tail = if t.name@ == name {
        seq![t]
    } else {
        Seq::<Trait>::empty()
    };
    if s.len() == 0 {
        assert(p[0] == t);
        assert(p.drop_first() =~= Seq::<Trait>::empty());
        assert(spec_matching_traits(p.drop_first(), name) =~= Seq::<Trait>::empty());
        if t.name@ == name {
            assert(spec_matching_traits(p, name) =~= seq![t]);
            assert(spec_matching_traits(s, name) + tail =~= seq![t]);
        } else {
            assert(spec_matching_traits(p, name) =~= Seq::<Trait>::empty());
            assert(spec_matching_traits(s, name) + tail =~= Seq::<Trait>::empty());
        }
    } else {
        assert(p[0] == s[0]);
        assert(p.drop_first() =~= s.drop_first().push(t));
        lemma_matching_push(s.drop_first(), t, name);
        if s[0].name@ == name {
            assert(seq![s[0]] + (spec_matching_traits(s.drop_first(), name) + tail) =~= (seq![
                s[0],
            ] + spec_matching_traits(s.drop_first(), name)) + tail);
        }
    }
}

/// A matching list is nonempty exactly when some trait carries the name.
pub proof fn lemma_matching_nonempty(s: Seq<Trait>, name: QNameView)
    ensures
        spec_matching_traits(s, name).len() > 0 <==> spec_has_matching(s, name),
        forall|i: int|
            0 <= i < spec_matching_traits(s, name).len() ==> (#[trigger] spec_matching_traits(
                s,
                name,
            )[i]).name@ == name,
    decreases s.len(),
{
    if s.len() != 0 {
        lemma_matching_nonempty(s.drop_first(), name);
        if spec_has_matching(s, name) && s[0].name@ != name {
            let i = choose|i: int| 0 <= i < s.len() && (#[trigger] s[i]).name@ == name;
            assert(s.drop_first()[i - 1] == s[i]);
        }
        assert forall|i: int| 0 <= i < s.drop_first().len() implies #[trigger] s.drop_first()[i]
            == s[i + 1] by {}
    }
}

/// One class definition.
#[derive(Debug)]
pub struct Class {
    /// The class's qualified name.
    pub name: QName,
    /// The superclass reference, resolved through the scope chain when a
    /// nested class is materialized. `None` for the root class.
    pub super_class_name: Option<Multiname>,
    /// The attribute bits.
    pub attributes: ClassAttributes,
    /// The opaque handle of the instance initializer.
    pub instance_init: u32,
    /// The opaque handle of the class initializer.
    pub class_init: u32,
    /// Traits of instances of this class.
    pub instance_traits: Vec<Trait>,
    /// Traits of the class constructor itself.
    pub class_traits: Vec<Trait>,
}

impl Class {
    /// A fresh class with the given name, superclass reference and
    /// initializers, and no traits yet.
    pub fn new(
        name: QName,
        super_class_name: Option<Multiname>,
        instance_init: u32,
        class_init: u32,
    ) -> (r: Class)
        ensures
            r.name == name,
            r.super_class_name == super_class_name,
            r.attributes.bits == 0,
            r.instance_init == instance_init,
            r.class_init == class_init,
            r.instance_traits@ =~= Seq::<Trait>::empty(),
            r.class_traits@ =~= Seq::<Trait>::empty(),
    {
        Class {
            name,
            super_class_name,
            attributes: ClassAttributes::empty(),
            instance_init,
            class_init,
            instance_traits: Vec::new(),
            class_traits: Vec::new(),
        }
    }

    /// Replaces the attribute bits.
    pub fn set_attributes(&mut self, attribs: ClassAttributes)
        ensures
            *final(self) == (Class { attributes: attribs, ..*old(self) }),
    {
        self.attributes = attribs;
    }

    /// Declares one more instance trait.
    pub fn define_instance_trait(&mut self, t: Trait)
        ensures
            final(self).instance_traits@ == old(self).instance_traits@.push(t),
            final(self).class_traits == old(self).class_traits,
            final(self).name == old(self).name,
            final(self).super_class_name == old(self).super_class_name,
            final(self).attributes == old(self).attributes,
            final(self).instance_init == old(self).instance_init,
            final(self).class_init == old(self).class_init,
    {
        self.instance_traits.push(t);
    }

    /// Declares one more class trait.
    pub fn define_class_trait(&mut self, t: Trait)
        ensures
            final(self).class_traits@ == old(self).class_traits@.push(t),
            final(self).instance_traits == old(self).instance_traits,
            final(self).name == old(self).name,
            final(self).super_class_name == old(self).super_class_name,
            final(self).attributes == old(self).attributes,
            final(self).instance_init == old(self).instance_init,
            final(self).class_init == old(self).class_init,
    {
        self.class_traits.push(t);
    }

    /// Appends every instance trait carrying `name` to `known_traits`, in
    /// declaration order.
    pub fn lookup_instance_traits(&self, name: &QName, known_traits: &mut Vec<Trait>)
        ensures
            spec_appended_matching(
                old(known_traits)@,
                final(known_traits)@,
                self.instance_traits@,
                name@,
            ),
    {
        lookup_in(&self.instance_traits, name, known_traits)
    }

    /// Appends every class trait carrying `name` to `known_traits`, in
    /// declaration order.
    pub fn lookup_class_traits(&self, name: &QName, known_traits: &mut Vec<Trait>)
        ensures
            spec_appended_matching(
                old(known_traits)@,
                final(known_traits)@,
                self.class_traits@,
                name@,
            ),
    {
        lookup_in(&self.class_traits, name, known_traits)
    }

    /// Whether some instance trait carries `name`.
    pub fn has_instance_trait(&self, name: &QName) -> (r: bool)
        ensures
            r == spec_has_matching(self.instance_traits@, name@),
    {
        has_in(&self.instance_traits, name)
    }

    /// Whether some class trait carries `name`.
    pub fn has_class_trait(&self, name: &QName) -> (r: bool)
        ensures
            r == spec_has_matching(self.class_traits@, name@),
    {
        has_in(&self.class_traits, name)
    }

    /// The namespace of the first instance trait whose local name is
    /// `local_name`, for wildcard lookups.
    pub fn resolve_any_instance_trait(&self, local_name: &String) -> (r: Option<Namespace>)
        ensures
            r == spec_resolve_any(self.instance_traits@, local_name@),
    {
        resolve_any_in(&self.instance_traits, local_name)
    }

    /// The namespace of the first class trait whose local name is
    /// `local_name`, for wildcard lookups.
    pub fn resolve_any_class_trait(&self, local_name: &String) -> (r: Option<Namespace>)
        ensures
            r == spec_resolve_any(self.class_traits@, local_name@),
    {
        resolve_any_in(&self.class_traits, local_name)
    }
}

/// The appending relation of every trait lookup: the list keeps its
/// prefix and gains, element for element, the content of `add`.
pub open spec fn spec_appends_like(pre: Seq<Trait>, post: Seq<Trait>, add: Seq<Trait>) -> bool {
    &&& post.len() == pre.len() + add.len()
    &&& forall|j: int| 0 <= j < pre.len() ==> post[j] == pre[j]
    &&& forall|j: int|
        0 <= j < add.len() ==> spec_trait_like(#[trigger] post[pre.len() + j], add[j])
}

/// Two appends in a row are one append of the concatenation.
pub proof fn lemma_appends_like_concat(
    pre: Seq<Trait>,
    mid: Seq<Trait>,
    post: Seq<Trait>,
    a: Seq<Trait>,
    b: Seq<Trait>,
)
    requires
        spec_appends_like(pre, mid, a),
        spec_appends_like(mid, post, b),
    ensures
        spec_appends_like(pre, post, a + b),
{
    assert forall|j: int| 0 <= j < (a + b).len() implies spec_trait_like(
        #[trigger] post[pre.len() + j],
        (a + b)[j],
    ) by {
        if j < a.len() {
            assert(post[pre.len() + j] == mid[pre.len() + j]);
            assert((a + b)[j] == a[j]);
        } else {
            assert((a + b)[j] == b[j - a.len()]);
            assert(post[pre.len() + j] == post[mid.len() + (j - a.len())]);
        }
    }
}

/// The appending relation of a trait lookup against one table.
pub open spec fn spec_appended_matching(
    pre: Seq<Trait>,
    post: Seq<Trait>,
    src: Seq<Trait>,
    name: QNameView,
) -> bool {
    spec_appends_like(pre, post, spec_matching_traits(src, name))
}

/// Appends every trait of `src` carrying `name` to `known`, in order.
fn lookup_in(src: &Vec<Trait>, name: &QName, known: &mut Vec<Trait>)
    ensures
        spec_appended_matching(old(known)@, final(known)@, src@, name@),
{
    let ghost pre = old(known)@;
    let mut i: usize = 0;
    while i < src.len()
        invariant
            i <= src@.len(),
            spec_appended_matching(pre, known@, src@.subrange(0, i as int), name@),
        decreases src@.len() - i,
    {
        proof {
            assert(src@.subrange(0, i + 1) =~= src@.subrange(0, i as int).push(src@[i as int]));
            lemma_matching_push(src@.subrange(0, i as int), src@[i as int], name@);
        }
        if src[i].name.qname_eq(name) {
            known.push(src[i].clone());
            proof {
                let m0 = spec_matching_traits(src@.subrange(0, i as int), name@);
                let m1 = spec_matching_traits(src@.subrange(0, i + 1), name@);
                assert(m1 == m0 + seq![src@[i as int]]);
                assert(m1.len() == m0.len() + 1);
                assert(m1[m0.len() as int] == src@[i as int]);
                assert forall|j: int| 0 <= j < m0.len() implies m1[j] == m0[j] by {}
            }
        } else {
            proof {
                let m0 = spec_matching_traits(src@.subrange(0, i as int), name@);
                let m1 = spec_matching_traits(src@.subrange(0, i + 1), name@);
                assert(m1 =~= m0 + Seq::<Trait>::empty());
                assert(m1 =~= m0);
            }
        }
        i += 1;
    }
    proof {
        assert(src@.subrange(0, src@.len() as int) =~= src@);
    }
}

/// Whether some trait of `src` carries `name`.
fn has_in(src: &Vec<Trait>, name: &QName) -> (r: bool)
    ensures
        r == spec_has_matching(src@, name@),
{
    let mut i: usize = 0;
    while i < src.len()
        invariant
            i <= src@.len(),
            forall|j: int| 0 <= j < i ==> (#[trigger] src@[j]).name@ != name@,
        decreases src@.len() - i,
    {
        if src[i].name.qname_eq(name) {
            return true;
        }
        i += 1;
    }
    false
}

/// The namespace of the first trait of `src` whose local name is `local`.
fn resolve_any_in(src: &Vec<Trait>, local: &String) -> (r: Option<Namespace>)
    ensures
        r == spec_resolve_any(src@, local@),
{
    let mut i: usize = 0;
    proof {
        assert(src@.skip(0) =~= src@);
    }
    while i < src.len()
        invariant
            i <= src@.len(),
            spec_resolve_any(src@, local@) == spec_resolve_any(src@.skip(i as int), local@),
        decreases src@.len() - i,
    {
        proof {
            assert(src@.skip(i as int)[0] == src@[i as int]);
            assert(src@.skip(i as int).drop_first() =~= src@.skip(i + 1));
        }
        if *src[i].name.local_name() == *local {
            return Some(src[i].name.namespace().clone());
        }
        i += 1;
    }
    proof {
        assert(src@.skip(i as int) =~= Seq::<Trait>::empty());
    }
    None
}

} // verus!
