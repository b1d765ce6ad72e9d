//! Property identity: namespaces, qualified names and multinames.
//!
//! A property is identified by a [`QName`]: a namespace together with a local
//! name. Two qualified names are equal exactly when both parts match. An
//! unresolved lookup carries a [`Multiname`]: a set of candidate namespaces and
//! an optional local name, narrowed to a single `QName` at lookup time.

use vstd::prelude::*;

verus! {

/// One namespace.
///
/// `Any` is the lookup-only wildcard: it may appear in a multiname's candidate
/// set but is never used as a storage key. Private namespaces are keyed by a
/// unique tag so that private members of unrelated classes cannot collide.
#[derive(Debug)]
pub enum Namespace {
    /// The wildcard namespace, matching any namespace during lookup.
    Any,
    /// The unnamed public namespace.
    Public,
    /// The namespace reserved for the runtime's own built-in methods.
    As3,
    /// A user-defined package namespace.
    Package(String),
    /// A private namespace, keyed by a uniquely tagged string.
    Private(String),
}

/// The mathematical value of a [`Namespace`].
pub enum NamespaceView {
    Any,
    Public,
    As3,
    Package(Seq<char>),
    Private(Seq<char>),
}

impl View for Namespace {
    type V = NamespaceView;

    open spec fn view(&self) -> NamespaceView {
        match self {
            Namespace::Any => NamespaceView::Any,
            Namespace::Public => NamespaceView::Public,
            Namespace::As3 => NamespaceView::As3,
            Namespace::Package(s) => NamespaceView::Package(s@),
            Namespace::Private(s) => NamespaceView::Private(s@),
        }
    }
}

impl Clone for Namespace {
    /// An exact copy: the copy equals the original.
    fn clone(&self) -> (r: Namespace)
        ensures
            r == *self,
    {
        match self {
            Namespace::Any => Namespace::Any,
            Namespace::Public => Namespace::Public,
            Namespace::As3 => Namespace::As3,
            Namespace::Package(s) => Namespace::Package(s.clone()),
            Namespace::Private(s) => Namespace::Private(s.clone()),
        }
    }
}

impl Namespace {
    /// The unnamed public namespace.
    pub fn public() -> (r: Namespace)
        ensures
            r@ == NamespaceView::Public,
    {
        Namespace::Public
    }

    /// The namespace of the runtime's built-in methods.
    pub fn as3_namespace() -> (r: Namespace)
        ensures
            r@ == NamespaceView::As3,
    {
        Namespace::As3
    }

    /// A package namespace with the given name.
    pub fn package(name: String) -> (r: Namespace)
        ensures
            r@ == NamespaceView::Package(name@),
    {
        Namespace::Package(name)
    }

    /// A private namespace with the given unique tag.
    pub fn private(tag: String) -> (r: Namespace)
        ensures
            r@ == NamespaceView::Private(tag@),
    {
        Namespace::Private(tag)
    }

    /// True exactly for the lookup wildcard.
    pub fn is_any(&self) -> (r: bool)
        ensures
            r == (self@ is Any),
    {
        matches!(self, Namespace::Any)
    }

    /// True exactly for a private namespace.
    pub fn is_private(&self) -> (r: bool)
        ensures
            r == (self@ is Private),
    {
        matches!(self, Namespace::Private(_))
    }

    /// True exactly for the unnamed public namespace.
    pub fn is_public(&self) -> (r: bool)
        ensures
            r == (self@ is Public),
    {
        matches!(self, Namespace::Public)
    }

    /// Decides equality of two namespaces.
    pub fn ns_eq(&self, other: &Namespace) -> (r: bool)
        ensures
            r == (self@ == other@),
    {
        match (self, other) {
            (Namespace::Any, Namespace::Any) => true,
            (Namespace::Public, Namespace::Public) => true,
            (Namespace::As3, Namespace::As3) => true,
            (Namespace::Package(a), Namespace::Package(b)) => *a == *b,
            (Namespace::Private(a), Namespace::Private(b)) => *a == *b,
            _ => false,
        }
    }
}

/// A fully qualified property name: a namespace plus a local name.
#[derive(Debug)]
pub struct QName {
    pub ns: Namespace,
    pub name: String,
}

/// The mathematical value of a [`QName`].
pub struct QNameView {
    pub ns: NamespaceView,
    pub name: Seq<char>,
}

impl View for QName {
    type V = QNameView;

    open spec fn view(&self) -> QNameView {
        QNameView { ns: self.ns@, name: self.name@ }
    }
}

impl Clone for QName {
    /// An exact copy: the copy equals the original.
    fn clone(&self) -> (r: QName)
        ensures
            r == *self,
    {
        QName { ns: self.ns.clone(), name: self.name.clone() }
    }
}

impl QName {
    /// Builds a qualified name from its parts.
    pub fn new(ns: Namespace, name: String) -> (r: QName)
        ensures
            r@ == (QNameView { ns: ns@, name: name@ }),
    {
        QName { ns, name }
    }

    /// A public-namespace name, as used for dynamic properties.
    pub fn dynamic_name(name: String) -> (r: QName)
        ensures
            r@ == (QNameView { ns: NamespaceView::Public, name: name@ }),
    {
        QName { ns: Namespace::Public, name }
    }

    /// The local-name part.
    pub fn local_name(&self) -> (r: &String)
        ensures
            *r == self.name,
            r@ == self@.name,
    {
        &self.name
    }

    /// The namespace part.
    pub fn namespace(&self) -> (r: &Namespace)
        ensures
            *r == self.ns,
            r@ == self@.ns,
    {
        &self.ns
    }

    /// Decides equality of two qualified names: both the namespace and the
    /// local name must match.
    pub fn qname_eq(&self, other: &QName) -> (r: bool)
        ensures
            r == (self@ == other@),
    {
        let r = self.ns.ns_eq(&other.ns) && self.name == other.name;
        proof {
            if r {
                assert(self@ == other@);
            }
        }
        r
    }
}

/// An unresolved name: a set of candidate namespaces plus an optional local
/// name. A `None` local name stands for a name that is only known at run
/// time and cannot be resolved statically.
#[derive(Debug)]
pub struct Multiname {
    pub ns_set: Vec<Namespace>,
    pub name: Option<String>,
}

/// The mathematical value of a [`Multiname`].
pub struct MultinameView {
    pub ns_set: Seq<NamespaceView>,
    pub name: Option<Seq<char>>,
}

impl View for Multiname {
    type V = MultinameView;

    open spec fn view(&self) -> MultinameView {
        MultinameView {
            ns_set: self.ns_set@.map_values(|n: Namespace| n@),
            name: match self.name {
                Some(s) => Some(s@),
                None => None,
            },
        }
    }
}

impl Clone for Multiname {
    /// An exact copy: the copy equals the original.
    fn clone(&self) -> (r: Multiname)
        ensures
            r.ns_set@ == self.ns_set@,
            r.name == self.name,
            r@ == self@,
    {
        let mut ns_set: Vec<Namespace> = Vec::new();
        let mut i: usize = 0;
        while i < self.ns_set.len()
            invariant
                i <= self.ns_set.len(),
                ns_set@ == self.ns_set@.subrange(0, i as int),
            decreases self.ns_set.len() - i,
        {
            ns_set.push(self.ns_set[i].clone());
            proof {
                assert(ns_set@ =~= self.ns_set@.subrange(0, i + 1));
            }
            i += 1;
        }
        proof {
            assert(ns_set@ =~= self.ns_set@);
        }
        let name = match &self.name {
            Some(s) => Some(s.clone()),
            None => None,
        };
        Multiname { ns_set, name }
    }
}

impl Multiname {
    /// A multiname holding exactly the wildcard namespace and no local name.
    pub fn any() -> (r: Multiname)
        ensures
            r@.ns_set.len() == 1,
            r@.ns_set[0] is Any,
            r@.name is None,
    {
        Multiname { ns_set: vec![Namespace::Any], name: None }
    }

    /// The multiname that resolves exactly to the given qualified name.
    pub fn from_qname(qname: QName) -> (r: Multiname)
        ensures
            r@.ns_set.len() == 1,
            r@.ns_set[0] == qname@.ns,
            r@.name == Some(qname@.name),
    {
        let r = Multiname { ns_set: vec![qname.ns], name: Some(qname.name) };
        proof {
            assert(r@.ns_set =~= seq![qname@.ns]);
        }
        r
    }

    /// The candidate namespaces, in declaration order.
    pub fn namespace_set(&self) -> (r: &Vec<Namespace>)
        ensures
            r@.map_values(|n: Namespace| n@) == self@.ns_set,
    {
        &self.ns_set
    }

    /// The local name, if one is known.
    pub fn local_name(&self) -> (r: Option<&String>)
        ensures
            match r {
                Some(s) => self@.name == Some(s@),
                None => self@.name is None,
            },
    {
        match &self.name {
            Some(s) => Some(s),
            None => None,
        }
    }
}

} // verus!
