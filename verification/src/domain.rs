//! Application domains: the script-export namespace.
//!
//! A domain maps exported qualified names to the scripts that defined
//! them, with an optional parent domain consulted only after the domain's
//! own search is exhausted. Unlike ordinary property shadowing, exporting
//! a name that an ancestor already exports is a hard error: domains model
//! compile-time-checked namespaces, not dynamic objects.

use vstd::prelude::*;

use crate::error::EngineError;
use crate::heap::Avm;
use crate::names::{Multiname, MultinameView, QName, QNameView};

verus! {

/// One exported definition: a qualified name and the script that owns it.
#[derive(Debug)]
pub struct DomainDef {
    pub name: QName,
    pub script: usize,
}

impl Clone for DomainDef {
    /// An exact copy: the copy equals the original.
    fn clone(&self) -> (r: DomainDef)
        ensures
            r == *self,
    {
        DomainDef { name: self.name.clone(), script: self.script }
    }
}

/// The state of one domain: its exports in export order, and its optional
/// parent.
#[derive(Debug)]
pub struct DomainData {
    pub defs: Vec<DomainDef>,
    pub parent: Option<usize>,
}

/// Well-formedness of one domain against the table sizes: the parent is an
/// earlier domain, scripts are live, and no name is exported twice.
pub open spec fn wf_domain(d: DomainData, i: int, n_scripts: int) -> bool {
    &&& match d.parent {
        Some(p) => p < i,
        None => true,
    }
    &&& forall|k: int| 0 <= k < d.defs@.len() ==> (#[trigger] d.defs@[k]).script < n_scripts
    &&& forall|a: int, b: int|
        0 <= a < b < d.defs@.len() ==> (#[trigger] d.defs@[a]).name@ != (
        #[trigger] d.defs@[b]).name@
}

/// The first export bound to exactly `name`.
pub open spec fn spec_defs_find(s: Seq<DomainDef>, name: QNameView) -> Option<DomainDef>
    decreases s.len(),
{
    if s.len() == 0 {
        None
    } else if s[0].name@ == name {
        Some(s[0])
    } else {
        spec_defs_find(s.drop_first(), name)
    }
}

/// The first export whose local name is `local`, in export order.
pub open spec fn spec_defs_find_local(s: Seq<DomainDef>, local: Seq<char>) -> Option<DomainDef>
    decreases s.len(),
{
    if s.len() == 0 {
        None
    } else if s[0].name@.name == local {
        Some(s[0])
    } else {
        spec_defs_find_local(s.drop_first(), local)
    }
}

/// Whether `name` is exported by domain `d` or any of its ancestors.
pub open spec fn spec_domain_has_def(avm: Avm, d: int, name: QNameView) -> bool
    decreases d,
{
    if 0 <= d < avm.domains@.len() {
        spec_defs_find(avm.domains@[d].defs@, name) is Some || (match avm.domains@[d].parent {
            Some(p) => if p < d {
                spec_domain_has_def(avm, p as int, name)
            } else {
                false
            },
            None => false,
        })
    } else {
        false
    }
}

/// The search of one domain's own exports for a multiname, walking the
/// candidate namespaces in declared order from position `k`.
///
/// The outer `Some` means the search ended inside this domain: with a
/// definition, or with the fixed answer "nothing" (a candidate with no
/// static local name ends the whole lookup). The outer `None` means every
/// candidate was exhausted and the parent domain may be consulted.
pub open spec fn spec_domain_local_search(
    defs: Seq<DomainDef>,
    mn: MultinameView,
    k: int,
) -> Option<Option<DomainDef>>
    decreases mn.ns_set.len() - k,
{
    if k < 0 || k >= mn.ns_set.len() {
        None
    } else {
        match mn.name {
            None => Some(None),
            Some(local) => {
                if mn.ns_set[k] is Any {
                    match spec_defs_find_local(defs, local) {
                        Some(def) => Some(Some(def)),
                        None => spec_domain_local_search(defs, mn, k + 1),
                    }
                } else {
                    match spec_defs_find(defs, QNameView { ns: mn.ns_set[k], name: local }) {
                        Some(def) => Some(Some(def)),
                        None => spec_domain_local_search(defs, mn, k + 1),
                    }
                }
            },
        }
    }
}

/// The full domain-chain search for a multiname: a parent domain is
/// consulted only once, after the child's own candidate-namespace loop is
/// exhausted.
pub open spec fn spec_get_defining_script(avm: Avm, d: int, mn: MultinameView) -> Option<
    DomainDef,
>
    decreases d,
{
    if 0 <= d < avm.domains@.len() {
        match spec_domain_local_search(avm.domains@[d].defs@, mn, 0) {
            Some(outcome) => outcome,
            None => match avm.domains@[d].parent {
                Some(p) => if p < d {
                    spec_get_defining_script(avm, p as int, mn)
                } else {
                    None
                },
                None => None,
            },
        }
    } else {
        None
    }
}

/// A handle to one application domain.
#[derive(Clone, Copy, Debug, PartialEq, Eq, Structural)]
pub struct Domain {
    pub id: usize,
}

impl DomainData {
    /// The first export bound to exactly `name`.
    fn find_def(&self, name: &QName) -> (r: Option<usize>)
        ensures
            match r {
                Some(i) => i < self.defs@.len() && spec_defs_find(self.defs@, name@) == Some(
                    self.defs@[i as int],
                ),
                None => spec_defs_find(self.defs@, name@) is None,
            },
    {
        let mut i: usize = 0;
        proof {
            assert(self.defs@.skip(0) =~= self.defs@);
        }
        while i < self.defs.len()
            invariant
                i <= self.defs@.len(),
                forall|j: int| 0 <= j < i ==> (#[trigger] self.defs@[j]).name@ != name@,
                spec_defs_find(self.defs@, name@) == spec_defs_find(
                    self.defs@.skip(i as int),
                    name@,
                ),
            decreases self.defs@.len() - i,
        {
            proof {
                assert(self.defs@.skip(i as int)[0] == self.defs@[i as int]);
                assert(self.defs@.skip(i as int).drop_first() =~= self.defs@.skip(i + 1));
            }
            if self.defs[i].name.qname_eq(name) {
                return Some(i);
            }
            i += 1;
        }
        proof {
            assert(self.defs@.skip(i as int) =~= Seq::<DomainDef>::empty());
        }
        None
    }

    /// The first export whose local name is `local`.
    fn find_def_local(&self, local: &String) -> (r: Option<usize>)
        ensures
            match r {
                Some(i) => i < self.defs@.len() && spec_defs_find_local(self.defs@, local@)
                    == Some(self.defs@[i as int]),
                None => spec_defs_find_local(self.defs@, local@) is None,
            },
    {
        let mut i: usize = 0;
        proof {
            assert(self.defs@.skip(0) =~= self.defs@);
        }
        while i < self.defs.len()
            invariant
                i <= self.defs@.len(),
                spec_defs_find_local(self.defs@, local@) == spec_defs_find_local(
                    self.defs@.skip(i as int),
                    local@,
                ),
            decreases self.defs@.len() - i,
        {
            proof {
                assert(self.defs@.skip(i as int)[0] == self.defs@[i as int]);
                assert(self.defs@.skip(i as int).drop_first() =~= self.defs@.skip(i + 1));
            }
            if *self.defs[i].name.local_name() == *local {
                return Some(i);
            }
            i += 1;
        }
        proof {
            assert(self.defs@.skip(i as int) =~= Seq::<DomainDef>::empty());
        }
        None
    }
}

impl Domain {
    /// Creates a fresh domain with no parent: the root every other domain
    /// ultimately falls back to.
    pub fn global_domain(avm: &mut Avm) -> (r: Domain)
        requires
            crate::heap::wf(*old(avm)),
        ensures
            crate::heap::wf(*final(avm)),
            r.id == old(avm).domains@.len(),
            final(avm).domains@.len() == old(avm).domains@.len() + 1,
            final(avm).domains@[r.id as int].defs@.len() == 0,
            final(avm).domains@[r.id as int].parent is None,
            forall|j: int|
                0 <= j < old(avm).domains@.len() ==> final(avm).domains@[j] == old(avm).domains@[j],
            final(avm).objects == old(avm).objects,
            final(avm).classes == old(avm).classes,
            final(avm).scopes == old(avm).scopes,
            final(avm).scripts == old(avm).scripts,
            final(avm).display == old(avm).display,
            final(avm).protos == old(avm).protos,
            final(avm).strict == old(avm).strict,
            final(avm).swf_version == old(avm).swf_version,
    {
        let id = avm.domains.len();
        avm.domains.push(DomainData { defs: Vec::new(), parent: None });
        proof {
            let post = *avm;
            let pre = *old(avm);
            assert forall|i: int| 0 <= i < post.domains@.len() implies wf_domain(
                #[trigger] post.domains@[i],
                i,
                post.scripts@.len() as int,
            ) by {
                if i < pre.domains@.len() {
                    assert(post.domains@[i] == pre.domains@[i]);
                }
            }
        }
        Domain { id }
    }

    /// Creates a fresh domain below the given parent.
    pub fn movie_domain(avm: &mut Avm, parent: Domain) -> (r: Domain)
        requires
            crate::heap::wf(*old(avm)),
            parent.id < old(avm).domains@.len(),
        ensures
            crate::heap::wf(*final(avm)),
            r.id == old(avm).domains@.len(),
            final(avm).domains@.len() == old(avm).domains@.len() + 1,
            final(avm).domains@[r.id as int].defs@.len() == 0,
            final(avm).domains@[r.id as int].parent == Some(parent.id),
            forall|j: int|
                0 <= j < old(avm).domains@.len() ==> final(avm).domains@[j] == old(avm).domains@[j],
            final(avm).objects == old(avm).objects,
            final(avm).classes == old(avm).classes,
            final(avm).scopes == old(avm).scopes,
            final(avm).scripts == old(avm).scripts,
            final(avm).display == old(avm).display,
            final(avm).protos == old(avm).protos,
            final(avm).strict == old(avm).strict,
            final(avm).swf_version == old(avm).swf_version,
    {
        let id = avm.domains.len();
        avm.domains.push(DomainData { defs: Vec::new(), parent: Some(parent.id) });
        proof {
            let post = *avm;
            let pre = *old(avm);
            assert forall|i: int| 0 <= i < post.domains@.len() implies wf_domain(
                #[trigger] post.domains@[i],
                i,
                post.scripts@.len() as int,
            ) by {
                if i < pre.domains@.len() {
                    assert(post.domains@[i] == pre.domains@[i]);
                }
            }
        }
        Domain { id }
    }

    /// The parent of this domain, if it has one.
    pub fn parent_domain(self, avm: &Avm) -> (r: Option<Domain>)
        requires
            self.id < avm.domains@.len(),
        ensures
            match r {
                Some(p) => avm.domains@[self.id as int].parent == Some(p.id),
                None => avm.domains@[self.id as int].parent is None,
            },
    {
        match avm.domains[self.id].parent {
            Some(p) => Some(Domain { id: p }),
            None => None,
        }
    }

    /// Whether `name` is exported by this domain or any of its ancestors.
    pub fn has_definition(self, avm: &Avm, name: &QName) -> (r: bool)
        requires
            crate::heap::wf(*avm),
            self.id < avm.domains@.len(),
        ensures
            r == spec_domain_has_def(*avm, self.id as int, name@),
    {
        let mut cur: usize = self.id;
        loop
            invariant
                crate::heap::wf(*avm),
                cur < avm.domains@.len(),
                spec_domain_has_def(*avm, self.id as int, name@) == spec_domain_has_def(
                    *avm,
                    cur as int,
                    name@,
                ),
            decreases cur,
        {
            let found = avm.domains[cur].find_def(name);
            if found.is_some() {
                return true;
            }
            match avm.domains[cur].parent {
                Some(p) => {
                    cur = p;
                },
                None => {
                    return false;
                },
            }
        }
    }

    /// Resolves a multiname to the export that defines it, searching this
    /// domain's candidate namespaces in declared order — a wildcard
    /// candidate scans the exports in export order — and falling back to
    /// the parent domain only after the whole candidate loop is exhausted.
    /// Returns the resolved qualified name and the defining script.
    pub fn get_defining_script(self, avm: &Avm, multiname: &Multiname) -> (r: Option<(
        QName,
        usize,
    )>)
        requires
            crate::heap::wf(*avm),
            self.id < avm.domains@.len(),
        ensures
            match r {
                Some((q, s)) => spec_get_defining_script(*avm, self.id as int, multiname@)
                    matches Some(def) && def.name@ == q@ && def.script == s,
                None => spec_get_defining_script(*avm, self.id as int, multiname@) is None,
            },
    {
        let mut cur: usize = self.id;
        loop
            invariant
                crate::heap::wf(*avm),
                cur < avm.domains@.len(),
                spec_get_defining_script(*avm, self.id as int, multiname@)
                    == spec_get_defining_script(*avm, cur as int, multiname@),
            decreases cur,
        {
            let mut k: usize = 0;
            let ghost mnv = multiname@;
            let ghost defs = avm.domains@[cur as int].defs@;
            while k < multiname.ns_set.len()
                invariant
                    crate::heap::wf(*avm),
                    cur < avm.domains@.len(),
                    defs == avm.domains@[cur as int].defs@,
                    mnv == multiname@,
                    k <= multiname.ns_set@.len(),
                    spec_domain_local_search(defs, mnv, 0) == spec_domain_local_search(
                        defs,
                        mnv,
                        k as int,
                    ),
                    spec_get_defining_script(*avm, self.id as int, multiname@)
                        == spec_get_defining_script(*avm, cur as int, multiname@),
                decreases multiname.ns_set@.len() - k,
            {
                let ns = &multiname.ns_set[k];
                proof {
                    assert(mnv.ns_set[k as int] == multiname.ns_set@[k as int]@);
                }
                match multiname.local_name() {
                    None => {
                        return None;
                    },
                    Some(local) => {
                        if ns.is_any() {
                            match avm.domains[cur].find_def_local(local) {
                                Some(i) => {
                                    let def = &avm.domains[cur].defs[i];
                                    return Some((def.name.clone(), def.script));
                                },
                                None => {},
                            }
                        } else {
                            let qname = QName::new(ns.clone(), local.clone());
                            match avm.domains[cur].find_def(&qname) {
                                Some(i) => {
                                    let def = &avm.domains[cur].defs[i];
                                    return Some((def.name.clone(), def.script));
                                },
                                None => {},
                            }
                        }
                    },
                }
                k += 1;
            }
            match avm.domains[cur].parent {
                Some(p) => {
                    cur = p;
                },
                None => {
                    return None;
                },
            }
        }
    }

    /// Retrieves a value defined in this domain chain: the export is
    /// resolved to its defining script, and the name is read off that
    /// script's globals object. A name no script exports is a missing
    /// definition.
    pub fn get_defined_value(self, avm: &mut Avm, name: QName) -> (r: Result<
        crate::storage::GetOutcome,
        EngineError,
    >)
        requires
            crate::heap::wf(*old(avm)),
            self.id < old(avm).domains@.len(),
        ensures
            crate::heap::wf(*final(avm)),
            crate::resolve::spec_installs_only(*old(avm), *final(avm)),
            match spec_get_defining_script(*old(avm), self.id as int, crate::names::MultinameView {
                ns_set: seq![name@.ns],
                name: Some(name@.name),
            }) {
                None => r == Err::<crate::storage::GetOutcome, EngineError>(
                    EngineError::MissingDefinition,
                ) && *final(avm) == *old(avm),
                Some(def) => {
                    // The read happens on the defining script's globals; along
                    // a settled chain it is exactly the chain read and the
                    // heap is untouched.
                    let g = old(avm).scripts@[def.script as int].globals;
                    crate::engine::spec_chain_installed(*old(avm), g as int, def.name@)
                        ==> *final(avm) == *old(avm) && r == crate::engine::spec_chain_get(
                        *old(avm),
                        g as int,
                        g,
                        def.name@,
                    )
                },
            },
    {
        let mn = Multiname::from_qname(name);
        proof {
            assert(mn@.ns_set =~= seq![name@.ns]);
        }
        match self.get_defining_script(avm, &mn) {
            None => Err(EngineError::MissingDefinition),
            Some((qname, script)) => {
                proof {
                    let def = spec_get_defining_script(*avm, self.id as int, mn@);
                    lemma_gds_script_bounded(*avm, self.id as int, mn@);
                }
                let globals = avm.scripts[script].globals;
                proof {
                    assert(avm.scripts@[script as int].globals < avm.objects@.len());
                }
                avm.get_property(globals, globals, &qname)
            },
        }
    }

    /// Exports a definition into this domain. Fails with a redefinition
    /// error exactly when the name is already exported here or in any
    /// ancestor: a parent's export may not be silently shadowed.
    pub fn export_definition(self, avm: &mut Avm, name: QName, script: usize) -> (r: Result<
        (),
        EngineError,
    >)
        requires
            crate::heap::wf(*old(avm)),
            self.id < old(avm).domains@.len(),
            script < old(avm).scripts@.len(),
        ensures
            crate::heap::wf(*final(avm)),
            if spec_domain_has_def(*old(avm), self.id as int, name@) {
                r == Err::<(), EngineError>(EngineError::Redefinition) && *final(avm) == *old(avm)
            } else {
                &&& r == Ok::<(), EngineError>(())
                &&& final(avm).domains@[self.id as int].defs@ == old(avm).domains@[self.id as int].defs@.push(DomainDef { name, script })
                &&& final(avm).domains@[self.id as int].parent == old(avm).domains@[self.id as int].parent
                &&& forall|j: int|
                    0 <= j < old(avm).domains@.len() && j != self.id as int ==> final(avm).domains@[j] == old(avm).domains@[j]
                &&& final(avm).domains@.len() == old(avm).domains@.len()
                &&& final(avm).objects == old(avm).objects
                &&& final(avm).classes == old(avm).classes
                &&& final(avm).scopes == old(avm).scopes
                &&& final(avm).scripts == old(avm).scripts
                &&& final(avm).display == old(avm).display
                &&& final(avm).protos == old(avm).protos
                &&& final(avm).strict == old(avm).strict
                &&& final(avm).swf_version == old(avm).swf_version
            },
    {
        if self.has_definition(avm, &name) {
            return Err(EngineError::Redefinition);
        }
        let ghost pre = *avm;
        let dd = &mut avm.domains[self.id];
        let ghost predd = *dd;
        proof {
            assert(spec_defs_find(predd.defs@, name@) is None);
        }
        dd.defs.push(DomainDef { name, script });
        proof {
            let post = *avm;
            lemma_defs_find_not_found_no_entry(predd.defs@, name@);
            assert forall|a: int, b: int|
                0 <= a < b < post.domains@[self.id as int].defs@.len() implies (
            #[trigger] post.domains@[self.id as int].defs@[a]).name@ != (
            #[trigger] post.domains@[self.id as int].defs@[b]).name@ by {
                let nd = post.domains@[self.id as int].defs@;
                if b < predd.defs@.len() {
                    assert(nd[a] == predd.defs@[a]);
                    assert(nd[b] == predd.defs@[b]);
                } else {
                    assert(nd[a] == predd.defs@[a]);
                }
            }
            assert forall|i: int| 0 <= i < post.domains@.len() implies wf_domain(
                #[trigger] post.domains@[i],
                i,
                post.scripts@.len() as int,
            ) by {
                if i != self.id as int {
                    assert(post.domains@[i] == pre.domains@[i]);
                }
            }
        }
        Ok(())
    }
}

/// A found export is one of the list's entries.
pub proof fn lemma_defs_find_mem(s: Seq<DomainDef>, name: QNameView)
    ensures
        match spec_defs_find(s, name) {
            Some(def) => exists|k: int| 0 <= k < s.len() && (#[trigger] s[k]) == def,
            None => true,
        },
    decreases s.len(),
{
    if s.len() != 0 {
        if s[0].name@ == name {
        } else {
            lemma_defs_find_mem(s.drop_first(), name);
            match spec_defs_find(s.drop_first(), name) {
                Some(def) => {
                    let k = choose|k: int|
                        0 <= k < s.drop_first().len() && (#[trigger] s.drop_first()[k]) == def;
                    assert(s[k + 1] == def);
                },
                None => {},
            }
        }
    }
}

/// A locally found export is one of the list's entries.
pub proof fn lemma_defs_find_local_mem(s: Seq<DomainDef>, local: Seq<char>)
    ensures
        match spec_defs_find_local(s, local) {
            Some(def) => exists|k: int| 0 <= k < s.len() && (#[trigger] s[k]) == def,
            None => true,
        },
    decreases s.len(),
{
    if s.len() != 0 {
        if s[0].name@.name == local {
        } else {
            lemma_defs_find_local_mem(s.drop_first(), local);
            match spec_defs_find_local(s.drop_first(), local) {
                Some(def) => {
                    let k = choose|k: int|
                        0 <= k < s.drop_first().len() && (#[trigger] s.drop_first()[k]) == def;
                    assert(s[k + 1] == def);
                },
                None => {},
            }
        }
    }
}

/// The one-domain search yields one of the domain's own exports.
pub proof fn lemma_local_search_mem(defs: Seq<DomainDef>, mn: MultinameView, k: int)
    ensures
        match spec_domain_local_search(defs, mn, k) {
            Some(Some(def)) => exists|j: int| 0 <= j < defs.len() && (#[trigger] defs[j]) == def,
            _ => true,
        },
    decreases mn.ns_set.len() - k,
{
    if 0 <= k < mn.ns_set.len() {
        match mn.name {
            None => {},
            Some(local) => {
                if mn.ns_set[k] is Any {
                    lemma_defs_find_local_mem(defs, local);
                } else {
                    lemma_defs_find_mem(defs, QNameView { ns: mn.ns_set[k], name: local });
                }
                lemma_local_search_mem(defs, mn, k + 1);
            },
        }
    }
}

/// On a well-formed heap, a resolved export always names a live script.
pub proof fn lemma_gds_script_bounded(avm: Avm, d: int, mn: MultinameView)
    requires
        crate::heap::wf(avm),
    ensures
        match spec_get_defining_script(avm, d, mn) {
            Some(def) => def.script < avm.scripts@.len(),
            None => true,
        },
    decreases d,
{
    if 0 <= d < avm.domains@.len() {
        assert(wf_domain(avm.domains@[d], d, avm.scripts@.len() as int));
        match spec_domain_local_search(avm.domains@[d].defs@, mn, 0) {
            Some(outcome) => {
                lemma_local_search_mem(avm.domains@[d].defs@, mn, 0);
                match outcome {
                    Some(def) => {
                        let j = choose|j: int|
                            0 <= j < avm.domains@[d].defs@.len() && (
                            #[trigger] avm.domains@[d].defs@[j]) == def;
                        assert(avm.domains@[d].defs@[j].script < avm.scripts@.len());
                    },
                    None => {},
                }
            },
            None => {
                match avm.domains@[d].parent {
                    Some(p) => {
                        if p < d {
                            lemma_gds_script_bounded(avm, p as int, mn);
                        }
                    },
                    None => {},
                }
            },
        }
    }
}

/// When the first-match scan finds nothing, no entry carries the name.
pub proof fn lemma_defs_find_not_found_no_entry(s: Seq<DomainDef>, name: QNameView)
    requires
        spec_defs_find(s, name) is None,
    ensures
        forall|k: int| 0 <= k < s.len() ==> (#[trigger] s[k]).name@ != name,
    decreases s.len(),
{
    if s.len() != 0 {
        lemma_defs_find_not_found_no_entry(s.drop_first(), name);
        assert forall|k: int| 0 <= k < s.len() implies (#[trigger] s[k]).name@ != name by {
            if k > 0 {
                assert(s.drop_first()[k - 1] == s[k]);
            }
        }
    }
}

} // verus!
