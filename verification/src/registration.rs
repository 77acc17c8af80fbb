//! Routing of generated classes into the `pliron` Python module.
//!
//! Each generated class registers itself under its `"dialect.entity"` name and
//! is installed into the submodule named after its dialect (created on
//! demand); a name without a dialect prefix installs the class at the top
//! level. Registrations arrive in no particular order, so the resulting
//! namespace must not depend on it.

use vstd::prelude::*;

use crate::text::{chars_eq, copy_chars, spec_split_once, split_once};

verus! {

/// A registration entry of a generated class.
#[derive(Debug)]
pub struct Registration {
    /// `dialect.entity` (or a bare name without a dialect).
    pub name: Vec<char>,
    /// The name the class is installed under: the Rust struct's name.
    pub class_name: Vec<char>,
}

/// The dialect a registration is routed to; `None` for the top level.
pub open spec fn spec_route(name: Seq<char>) -> Option<Seq<char>> {
    match spec_split_once(name, '.') {
        Some((dialect, _)) => Some(dialect),
        None => None,
    }
}

/// The dialect submodule a registration goes into, or `None` for the top level.
pub fn route_registration(name: &[char]) -> (r: Option<Vec<char>>)
    ensures
        match r {
            Some(d) => spec_route(name@) == Some(d@),
            None => spec_route(name@) is None,
        },
{
    match split_once(name, '.') {
        Some((dialect, _)) => Some(dialect),
        None => None,
    }
}

/// What `getattr(parent, name)` found when a submodule is requested.
#[derive(Clone, Copy, Debug, PartialEq, Eq, Structural)]
pub enum AttrLookup {
    Missing,
    Module,
    /// An attribute that is not a module.
    NotModule,
}

/// What `get_or_create_submodule` does.
#[derive(Clone, Copy, Debug, PartialEq, Eq, Structural)]
pub enum SubmoduleAction {
    /// Return the existing submodule.
    Reuse,
    /// Create a new module and attach it under the name (replacing any
    /// non-module attribute of that name).
    CreateAndAttach,
}

/// An existing module attribute is reused; otherwise a module is created.
pub fn submodule_action(found: AttrLookup) -> (r: SubmoduleAction)
    ensures
        r == (if found == AttrLookup::Module {
            SubmoduleAction::Reuse
        } else {
            SubmoduleAction::CreateAndAttach
        }),
{
    match found {
        AttrLookup::Module => SubmoduleAction::Reuse,
        _ => SubmoduleAction::CreateAndAttach,
    }
}

// ---------------------------------------------------------------------------
// The namespace
// ---------------------------------------------------------------------------

/// A top-level attribute of the module.
#[derive(Debug)]
pub enum Entry {
    Class,
    /// A submodule, with the names of the classes installed in it.
    Module(Vec<Vec<char>>),
}

pub enum EntryModel {
    Class,
    Module(Set<Seq<char>>),
}

pub open spec fn entry_view(e: Entry) -> EntryModel {
    match e {
        Entry::Class => EntryModel::Class,
        Entry::Module(v) => EntryModel::Module(v@.map_values(|s: Vec<char>| s@).to_set()),
    }
}

/// The top-level namespace of the module, as the sequence of attribute
/// assignments made to it: a later assignment to a name replaces an earlier one.
#[derive(Debug)]
pub struct ModuleTree {
    pub assignments: Vec<(Vec<char>, Entry)>,
}

/// The attributes after the first `n` assignments.
pub open spec fn namespace(a: Seq<(Vec<char>, Entry)>, n: int) -> Map<Seq<char>, EntryModel>
    decreases n,
{
    if n <= 0 {
        Map::empty()
    } else {
        namespace(a, n - 1).insert(a[n - 1].0@, entry_view(a[n - 1].1))
    }
}

impl View for ModuleTree {
    type V = Map<Seq<char>, EntryModel>;

    open spec fn view(&self) -> Map<Seq<char>, EntryModel> {
        namespace(self.assignments@, self.assignments@.len() as int)
    }
}

/// The classes of the submodule `name`, empty when there is none.
pub open spec fn module_classes(m: Map<Seq<char>, EntryModel>, name: Seq<char>) -> Set<Seq<char>> {
    if m.contains_key(name) && m[name] is Module {
        m[name]->Module_0
    } else {
        Set::empty()
    }
}

/// What `getattr(parent, name)` finds in the namespace `m`.
pub open spec fn spec_lookup(m: Map<Seq<char>, EntryModel>, name: Seq<char>) -> AttrLookup {
    if !m.contains_key(name) {
        AttrLookup::Missing
    } else if m[name] is Module {
        AttrLookup::Module
    } else {
        AttrLookup::NotModule
    }
}

/// The namespace after requesting the submodule `name`: unchanged when it
/// exists, otherwise a new empty module is attached under the name.
pub open spec fn spec_get_or_create(m: Map<Seq<char>, EntryModel>, name: Seq<char>) -> Map<
    Seq<char>,
    EntryModel,
> {
    if spec_lookup(m, name) == AttrLookup::Module {
        m
    } else {
        m.insert(name, EntryModel::Module(Set::empty()))
    }
}

/// The namespace after installing the class of `reg` where its name routes it.
pub open spec fn spec_register(m: Map<Seq<char>, EntryModel>, name: Seq<char>, class_name: Seq<char>) -> Map<
    Seq<char>,
    EntryModel,
> {
    match spec_route(name) {
        Some(d) => m.insert(d, EntryModel::Module(module_classes(m, d).insert(class_name))),
        None => m.insert(class_name, EntryModel::Class),
    }
}

/// The namespace after installing the first `n` registrations, in order.
pub open spec fn spec_register_all(m: Map<Seq<char>, EntryModel>, regs: Seq<Registration>, n: int) -> Map<
    Seq<char>,
    EntryModel,
>
    decreases n,
{
    if n <= 0 {
        m
    } else {
        let prev = spec_register_all(m, regs, n - 1);
        spec_register(prev, regs[n - 1].name@, regs[n - 1].class_name@)
    }
}

impl ModuleTree {
    /// A module without attributes.
    pub fn new() -> (r: ModuleTree)
        ensures
            r@ == Map::<Seq<char>, EntryModel>::empty(),
    {
        ModuleTree { assignments: Vec::new() }
    }

    /// What `getattr(self, name)` finds.
    pub fn lookup(&self, name: &[char]) -> (r: AttrLookup)
        ensures
            r == spec_lookup(self@, name@),
    {
        let n = self.assignments.len();
        let mut i: usize = n;
        while i > 0
            invariant
                i <= n == self.assignments@.len(),
                forall|k: int|
                    #![trigger self.assignments@[k]]
                    i <= k < n ==> self.assignments@[k].0@ != name@,
            decreases i,
        {
            let (attr, entry) = &self.assignments[i - 1];
            if chars_eq(attr.as_slice(), name) {
                proof {
                    lemma_namespace_last(self.assignments@, n as int, (i - 1) as int, name@);
                }
                return match entry {
                    Entry::Module(_) => AttrLookup::Module,
                    Entry::Class => AttrLookup::NotModule,
                };
            }
            i -= 1;
        }
        proof {
            lemma_namespace_absent(self.assignments@, n as int, name@);
        }
        AttrLookup::Missing
    }

    /// `get_or_create_submodule`: reuse the submodule `name` when there is
    /// one, otherwise attach a new empty one under the name (replacing any
    /// other attribute of that name).
    pub fn get_or_create_submodule(&mut self, name: &[char]) -> (r: SubmoduleAction)
        ensures
            r == (if spec_lookup(old(self)@, name@) == AttrLookup::Module {
                SubmoduleAction::Reuse
            } else {
                SubmoduleAction::CreateAndAttach
            }),
            final(self)@ == spec_get_or_create(old(self)@, name@),
    {
        let action = submodule_action(self.lookup(name));
        match action {
            SubmoduleAction::Reuse => {},
            SubmoduleAction::CreateAndAttach => {
                let ghost a0 = self.assignments@;
                let empty: Vec<Vec<char>> = Vec::new();
                proof {
                    assert(empty@.map_values(|s: Vec<char>| s@).to_set() =~= Set::<Seq<char>>::empty());
                }
                self.assignments.push((copy_chars(name), Entry::Module(empty)));
                proof {
                    lemma_namespace_prefix(a0, self.assignments@, a0.len() as int);
                }
            },
        }
        action
    }

    /// The classes currently installed in the submodule `name`.
    fn classes_of(&self, name: &[char]) -> (r: Vec<Vec<char>>)
        ensures
            r@.map_values(|s: Vec<char>| s@).to_set() == module_classes(self@, name@),
    {
        let n = self.assignments.len();
        let mut i: usize = n;
        while i > 0
            invariant
                i <= n == self.assignments@.len(),
                forall|k: int|
                    #![trigger self.assignments@[k]]
                    i <= k < n ==> self.assignments@[k].0@ != name@,
            decreases i,
        {
            let (attr, entry) = &self.assignments[i - 1];
            if chars_eq(attr.as_slice(), name) {
                proof {
                    lemma_namespace_last(self.assignments@, n as int, (i - 1) as int, name@);
                }
                return match entry {
                    Entry::Module(v) => {
                        let mut out: Vec<Vec<char>> = Vec::new();
                        let mut j: usize = 0;
                        while j < v.len()
                            invariant
                                0 <= j <= v.len(),
                                out@.map_values(|s: Vec<char>| s@) =~= v@.subrange(0, j as int).map_values(
                                    |s: Vec<char>| s@,
                                ),
                            decreases v.len() - j,
                        {
                            let ghost before = out@;
                            out.push(copy_chars(v[j].as_slice()));
                            proof {
                                assert(out@.map_values(|s: Vec<char>| s@) =~= before.map_values(
                                    |s: Vec<char>| s@,
                                ).push(v@[j as int]@));
                                assert(v@.subrange(0, j + 1).map_values(|s: Vec<char>| s@) =~= v@.subrange(
                                    0,
                                    j as int,
                                ).map_values(|s: Vec<char>| s@).push(v@[j as int]@));
                            }
                            j += 1;
                        }
                        proof {
                            assert(v@.subrange(0, v@.len() as int) =~= v@);
                        }
                        out
                    },
                    Entry::Class => {
                        proof {
                            assert(Seq::<Vec<char>>::empty().map_values(|s: Vec<char>| s@).to_set() =~= Set::<
                                Seq<char>,
                            >::empty());
                        }
                        Vec::new()
                    },
                };
            }
            i -= 1;
        }
        proof {
            lemma_namespace_absent(self.assignments@, n as int, name@);
            assert(Seq::<Vec<char>>::empty().map_values(|s: Vec<char>| s@).to_set() =~= Set::<
                Seq<char>,
            >::empty());
        }
        Vec::new()
    }

    /// Install a class: at the top level (`module` is `None`) or into the
    /// submodule `module`, which is created when absent.
    pub fn add_class(&mut self, module: Option<&[char]>, class_name: &[char])
        ensures
            final(self)@ == match module {
                Some(d) => old(self)@.insert(
                    d@,
                    EntryModel::Module(module_classes(old(self)@, d@).insert(class_name@)),
                ),
                None => old(self)@.insert(class_name@, EntryModel::Class),
            },
    {
        match module {
            Some(d) => {
                let mut classes = self.classes_of(d);
                let ghost before = classes@;
                classes.push(copy_chars(class_name));
                proof {
                    assert(classes@.map_values(|s: Vec<char>| s@) =~= before.map_values(
                        |s: Vec<char>| s@,
                    ).push(class_name@));
                    before.map_values(|s: Vec<char>| s@).lemma_push_to_set_commute(class_name@);
                    assert(classes@.map_values(|s: Vec<char>| s@).to_set() =~= before.map_values(
                        |s: Vec<char>| s@,
                    ).to_set().insert(class_name@));
                }
                let ghost a0 = self.assignments@;
                self.assignments.push((copy_chars(d), Entry::Module(classes)));
                proof {
                    lemma_namespace_prefix(a0, self.assignments@, a0.len() as int);
                }
            },
            None => {
                let ghost a0 = self.assignments@;
                self.assignments.push((copy_chars(class_name), Entry::Class));
                proof {
                    lemma_namespace_prefix(a0, self.assignments@, a0.len() as int);
                }
            },
        }
    }
}

proof fn lemma_namespace_prefix(a1: Seq<(Vec<char>, Entry)>, a2: Seq<(Vec<char>, Entry)>, n: int)
    requires
        0 <= n <= a1.len(),
        n <= a2.len(),
        forall|j: int| 0 <= j < n ==> #[trigger] a1[j] == a2[j],
    ensures
        namespace(a1, n) == namespace(a2, n),
    decreases n,
{
    if n > 0 {
        lemma_namespace_prefix(a1, a2, n - 1);
        assert(a1[n - 1] == a2[n - 1]);
    }
}

proof fn lemma_namespace_last(a: Seq<(Vec<char>, Entry)>, n: int, k: int, name: Seq<char>)
    requires
        0 <= k < n <= a.len(),
        a[k].0@ == name,
        forall|j: int| #![trigger a[j]] k < j < n ==> a[j].0@ != name,
    ensures
        namespace(a, n).contains_key(name),
        namespace(a, n)[name] == entry_view(a[k].1),
    decreases n,
{
    if n - 1 > k {
        lemma_namespace_last(a, n - 1, k, name);
        assert(a[n - 1].0@ != name);
    }
}

proof fn lemma_namespace_absent(a: Seq<(Vec<char>, Entry)>, n: int, name: Seq<char>)
    requires
        0 <= n <= a.len(),
        forall|j: int| #![trigger a[j]] 0 <= j < n ==> a[j].0@ != name,
    ensures
        !namespace(a, n).contains_key(name),
    decreases n,
{
    if n > 0 {
        lemma_namespace_absent(a, n - 1, name);
        assert(a[n - 1].0@ != name);
    }
}

/// Install every registered class where its name routes it: into its
/// dialect's submodule (created on demand), or at the top level when the
/// name has no dialect prefix.
pub fn register_all_classes(m: &mut ModuleTree, regs: &[Registration])
    ensures
        final(m)@ == spec_register_all(old(m)@, regs@, regs@.len() as int),
{
    let ghost m0 = m@;
    let mut i: usize = 0;
    while i < regs.len()
        invariant
            0 <= i <= regs.len(),
            m@ == spec_register_all(m0, regs@, i as int),
        decreases regs.len() - i,
    {
        let reg = &regs[i];
        let ghost before = m@;
        match route_registration(reg.name.as_slice()) {
            Some(dialect) => {
                m.get_or_create_submodule(dialect.as_slice());
                let ghost m1 = m@;
                m.add_class(Some(dialect.as_slice()), reg.class_name.as_slice());
                proof {
                    assert(module_classes(m1, dialect@) =~= module_classes(before, dialect@));
                    assert(m@ =~= spec_register(before, reg.name@, reg.class_name@));
                }
            },
            None => m.add_class(None, reg.class_name.as_slice()),
        }
        i += 1;
    }
}

// ---------------------------------------------------------------------------
// Order does not matter
// ---------------------------------------------------------------------------

/// Two registrations do not contend for one top-level name: neither installs
/// a top-level class under the other's dialect name.
pub open spec fn compatible(n1: Seq<char>, c1: Seq<char>, n2: Seq<char>, c2: Seq<char>) -> bool {
    &&& (spec_route(n1) is None && spec_route(n2) is Some) ==> c1 != spec_route(n2)->0
    &&& (spec_route(n2) is None && spec_route(n1) is Some) ==> c2 != spec_route(n1)->0
}

/// Law: installing two compatible registrations gives the same namespace in
/// either order.
pub proof fn lemma_register_commutes(
    m: Map<Seq<char>, EntryModel>,
    n1: Seq<char>,
    c1: Seq<char>,
    n2: Seq<char>,
    c2: Seq<char>,
)
    requires
        compatible(n1, c1, n2, c2),
    ensures
        spec_register(spec_register(m, n1, c1), n2, c2) == spec_register(spec_register(m, n2, c2), n1, c1),
{
    let a = spec_register(spec_register(m, n1, c1), n2, c2);
    let b = spec_register(spec_register(m, n2, c2), n1, c1);
    match (spec_route(n1), spec_route(n2)) {
        (Some(d1), Some(d2)) => {
            if d1 == d2 {
                assert(module_classes(m, d1).insert(c1).insert(c2) =~= module_classes(m, d1).insert(
                    c2,
                ).insert(c1));
            }
            assert(a =~= b);
        },
        (Some(d1), None) => {
            assert(a =~= b);
        },
        (None, Some(d2)) => {
            assert(a =~= b);
        },
        (None, None) => {
            assert(a =~= b);
        },
    }
}

proof fn lemma_register_all_prefix_eq(
    m: Map<Seq<char>, EntryModel>,
    r1: Seq<Registration>,
    r2: Seq<Registration>,
    k: int,
    n: int,
)
    requires
        0 <= k <= n <= r1.len(),
        r1.len() == r2.len(),
        spec_register_all(m, r1, k) == spec_register_all(m, r2, k),
        forall|j: int| k <= j < n ==> #[trigger] r1[j] == r2[j],
    ensures
        spec_register_all(m, r1, n) == spec_register_all(m, r2, n),
    decreases n - k,
{
    if k < n {
        lemma_register_all_prefix_eq(m, r1, r2, k, n - 1);
        assert(r1[n - 1] == r2[n - 1]);
    }
}

proof fn lemma_register_all_same_prefix(m: Map<Seq<char>, EntryModel>, r1: Seq<Registration>, r2: Seq<Registration>, n: int)
    requires
        0 <= n <= r1.len(),
        n <= r2.len(),
        forall|j: int| 0 <= j < n ==> #[trigger] r1[j] == r2[j],
    ensures
        spec_register_all(m, r1, n) == spec_register_all(m, r2, n),
    decreases n,
{
    if n > 0 {
        lemma_register_all_same_prefix(m, r1, r2, n - 1);
        assert(r1[n - 1] == r2[n - 1]);
    }
}

/// Law: swapping two adjacent compatible registrations does not change the
/// resulting namespace, so any reordering by such swaps installs the same
/// classes in the same places.
pub proof fn lemma_register_all_swap(m: Map<Seq<char>, EntryModel>, regs: Seq<Registration>, i: int)
    requires
        0 <= i,
        i + 1 < regs.len(),
        compatible(regs[i].name@, regs[i].class_name@, regs[i + 1].name@, regs[i + 1].class_name@),
    ensures
        spec_register_all(m, regs, regs.len() as int) == spec_register_all(
            m,
            regs.update(i, regs[i + 1]).update(i + 1, regs[i]),
            regs.len() as int,
        ),
{
    let sw = regs.update(i, regs[i + 1]).update(i + 1, regs[i]);
    lemma_register_all_same_prefix(m, regs, sw, i);
    let base = spec_register_all(m, regs, i);
    lemma_register_commutes(
        base,
        regs[i].name@,
        regs[i].class_name@,
        regs[i + 1].name@,
        regs[i + 1].class_name@,
    );
    assert(sw[i] == regs[i + 1]);
    assert(sw[i + 1] == regs[i]);
    assert(spec_register_all(m, regs, i + 1) == spec_register(base, regs[i].name@, regs[i].class_name@));
    assert(spec_register_all(m, sw, i + 1) == spec_register(base, regs[i + 1].name@, regs[i + 1].class_name@));
    assert(spec_register_all(m, regs, i + 2) == spec_register_all(m, sw, i + 2));
    lemma_register_all_prefix_eq(m, regs, sw, i + 2, regs.len() as int);
}

/// Law: requesting a submodule a second time reuses the one the first
/// request found or created: the namespace does not change again, the name
/// holds a module, and that module keeps the classes it had.
pub proof fn lemma_get_or_create_reuses(m: Map<Seq<char>, EntryModel>, name: Seq<char>)
    ensures
        spec_get_or_create(spec_get_or_create(m, name), name) == spec_get_or_create(m, name),
        spec_lookup(spec_get_or_create(m, name), name) == AttrLookup::Module,
        module_classes(spec_get_or_create(m, name), name) == module_classes(m, name),
{
    assert(module_classes(spec_get_or_create(m, name), name) =~= module_classes(m, name));
}

/// A registration as plain values: its name and its class name.
pub open spec fn reg_view(r: Registration) -> (Seq<char>, Seq<char>) {
    (r.name@, r.class_name@)
}

/// The registrations among the first `n`, as a set.
pub open spec fn regs_set(regs: Seq<Registration>, n: int) -> Set<(Seq<char>, Seq<char>)> {
    Set::new(|p: (Seq<char>, Seq<char>)| exists|i: int| 0 <= i < n && #[trigger] reg_view(regs[i]) == p)
}

/// Some registration of `r` goes into the dialect submodule `k`.
pub open spec fn has_dialect(r: Set<(Seq<char>, Seq<char>)>, k: Seq<char>) -> bool {
    exists|p: (Seq<char>, Seq<char>)| #[trigger] r.contains(p) && spec_route(p.0) == Some(k)
}

/// Some registration of `r` installs a top-level class named `k`.
pub open spec fn has_top(r: Set<(Seq<char>, Seq<char>)>, k: Seq<char>) -> bool {
    exists|p: (Seq<char>, Seq<char>)| #[trigger] r.contains(p) && spec_route(p.0) is None && p.1 == k
}

/// The classes `r` installs in the dialect submodule `k`.
pub open spec fn dialect_classes(r: Set<(Seq<char>, Seq<char>)>, k: Seq<char>) -> Set<Seq<char>> {
    Set::new(
        |c: Seq<char>|
            exists|p: (Seq<char>, Seq<char>)| #[trigger] r.contains(p) && spec_route(p.0) == Some(k) && p.1 == c,
    )
}

/// The namespace `m` after installing the registrations `r`, whatever their
/// order: every dialect becomes a submodule holding its classes (added to
/// those of a submodule already there), every undotted name a top-level
/// class, and other names keep their attribute.
pub open spec fn namespace_of(m: Map<Seq<char>, EntryModel>, r: Set<(Seq<char>, Seq<char>)>) -> Map<
    Seq<char>,
    EntryModel,
> {
    Map::new(
        |k: Seq<char>| m.contains_key(k) || has_dialect(r, k) || has_top(r, k),
        |k: Seq<char>|
            if has_dialect(r, k) {
                EntryModel::Module(module_classes(m, k).union(dialect_classes(r, k)))
            } else if has_top(r, k) {
                EntryModel::Class
            } else {
                m[k]
            },
    )
}

/// No two registrations of `r` contend for one top-level name.
pub open spec fn all_compatible(r: Set<(Seq<char>, Seq<char>)>) -> bool {
    forall|p: (Seq<char>, Seq<char>), q: (Seq<char>, Seq<char>)|
        #![trigger r.contains(p), r.contains(q)]
        r.contains(p) && r.contains(q) ==> compatible(p.0, p.1, q.0, q.1)
}

proof fn lemma_namespace_of_step(
    m: Map<Seq<char>, EntryModel>,
    r: Set<(Seq<char>, Seq<char>)>,
    p: (Seq<char>, Seq<char>),
)
    requires
        all_compatible(r.insert(p)),
    ensures
        spec_register(namespace_of(m, r), p.0, p.1) == namespace_of(m, r.insert(p)),
{
    let n = namespace_of(m, r);
    let r2 = r.insert(p);
    let a = spec_register(n, p.0, p.1);
    let b = namespace_of(m, r2);
    assert(r2.contains(p));
    match spec_route(p.0) {
        Some(d) => {
            assert(!has_top(r, d)) by {
                if has_top(r, d) {
                    let q = choose|q: (Seq<char>, Seq<char>)| #[trigger] r.contains(q) && spec_route(q.0) is None && q.1 == d;
                    assert(r2.contains(q));
                    assert(compatible(q.0, q.1, p.0, p.1));
                }
            }
            assert(dialect_classes(r2, d) =~= dialect_classes(r, d).insert(p.1)) by {
                assert forall|c: Seq<char>| dialect_classes(r2, d).contains(c) implies dialect_classes(r, d).insert(
                    p.1,
                ).contains(c) by {
                    let q = choose|q: (Seq<char>, Seq<char>)| #[trigger] r2.contains(q) && spec_route(q.0) == Some(d) && q.1 == c;
                    if q != p {
                        assert(r.contains(q));
                    }
                }
                assert forall|c: Seq<char>| dialect_classes(r, d).insert(p.1).contains(c) implies dialect_classes(
                    r2,
                    d,
                ).contains(c) by {
                    if c != p.1 {
                        let q = choose|q: (Seq<char>, Seq<char>)| #[trigger] r.contains(q) && spec_route(q.0) == Some(d) && q.1 == c;
                        assert(r2.contains(q));
                    }
                }
            }
            assert(module_classes(n, d) =~= module_classes(m, d).union(dialect_classes(r, d))) by {
                if !has_dialect(r, d) {
                    assert(dialect_classes(r, d) =~= Set::<Seq<char>>::empty());
                }
            }
            assert(has_dialect(r2, d));
            assert forall|k: Seq<char>| k != d implies (has_dialect(r2, k) == has_dialect(r, k) && has_top(r2, k)
                == has_top(r, k) && dialect_classes(r2, k) == dialect_classes(r, k)) by {
                if has_dialect(r2, k) {
                    let q = choose|q: (Seq<char>, Seq<char>)| #[trigger] r2.contains(q) && spec_route(q.0) == Some(k);
                    assert(q != p);
                    assert(r.contains(q));
                }
                if has_top(r2, k) {
                    let q = choose|q: (Seq<char>, Seq<char>)| #[trigger] r2.contains(q) && spec_route(q.0) is None && q.1 == k;
                    assert(q != p);
                    assert(r.contains(q));
                }
                if has_dialect(r, k) {
                    let q = choose|q: (Seq<char>, Seq<char>)| #[trigger] r.contains(q) && spec_route(q.0) == Some(k);
                    assert(r2.contains(q));
                }
                if has_top(r, k) {
                    let q = choose|q: (Seq<char>, Seq<char>)| #[trigger] r.contains(q) && spec_route(q.0) is None && q.1 == k;
                    assert(r2.contains(q));
                }
                assert(dialect_classes(r2, k) =~= dialect_classes(r, k)) by {
                    assert forall|c: Seq<char>| dialect_classes(r2, k).contains(c) implies dialect_classes(r, k).contains(c) by {
                        let q = choose|q: (Seq<char>, Seq<char>)| #[trigger] r2.contains(q) && spec_route(q.0) == Some(k) && q.1 == c;
                        assert(q != p);
                        assert(r.contains(q));
                    }
                    assert forall|c: Seq<char>| dialect_classes(r, k).contains(c) implies dialect_classes(r2, k).contains(c) by {
                        let q = choose|q: (Seq<char>, Seq<char>)| #[trigger] r.contains(q) && spec_route(q.0) == Some(k) && q.1 == c;
                        assert(r2.contains(q));
                    }
                }
            }
            assert(module_classes(m, d).union(dialect_classes(r, d)).insert(p.1) =~= module_classes(
                m,
                d,
            ).union(dialect_classes(r2, d)));
            assert(a[d] == b[d]);
            assert forall|k: Seq<char>| #[trigger] a.contains_key(k) == b.contains_key(k) by {
                if k != d {
                    assert(has_dialect(r2, k) == has_dialect(r, k));
                    assert(has_top(r2, k) == has_top(r, k));
                }
            }
            assert forall|k: Seq<char>| #[trigger] a.contains_key(k) implies a[k] == b[k] by {
                if k != d {
                    assert(has_dialect(r2, k) == has_dialect(r, k));
                    assert(has_top(r2, k) == has_top(r, k));
                    assert(dialect_classes(r2, k) == dialect_classes(r, k));
                }
            }
            assert(a =~= b);
        },
        None => {
            let c = p.1;
            assert(!has_dialect(r2, c)) by {
                if has_dialect(r2, c) {
                    let q = choose|q: (Seq<char>, Seq<char>)| #[trigger] r2.contains(q) && spec_route(q.0) == Some(c);
                    assert(compatible(p.0, p.1, q.0, q.1));
                }
            }
            assert(has_top(r2, c));
            assert forall|k: Seq<char>| k != c implies (has_dialect(r2, k) == has_dialect(r, k) && has_top(r2, k)
                == has_top(r, k) && dialect_classes(r2, k) == dialect_classes(r, k)) by {
                if has_dialect(r2, k) {
                    let q = choose|q: (Seq<char>, Seq<char>)| #[trigger] r2.contains(q) && spec_route(q.0) == Some(k);
                    assert(q != p);
                    assert(r.contains(q));
                }
                if has_top(r2, k) {
                    let q = choose|q: (Seq<char>, Seq<char>)| #[trigger] r2.contains(q) && spec_route(q.0) is None && q.1 == k;
                    assert(q != p);
                    assert(r.contains(q));
                }
                if has_dialect(r, k) {
                    let q = choose|q: (Seq<char>, Seq<char>)| #[trigger] r.contains(q) && spec_route(q.0) == Some(k);
                    assert(r2.contains(q));
                }
                if has_top(r, k) {
                    let q = choose|q: (Seq<char>, Seq<char>)| #[trigger] r.contains(q) && spec_route(q.0) is None && q.1 == k;
                    assert(r2.contains(q));
                }
                assert(dialect_classes(r2, k) =~= dialect_classes(r, k)) by {
                    assert forall|x: Seq<char>| dialect_classes(r2, k).contains(x) implies dialect_classes(r, k).contains(x) by {
                        let q = choose|q: (Seq<char>, Seq<char>)| #[trigger] r2.contains(q) && spec_route(q.0) == Some(k) && q.1 == x;
                        assert(q != p);
                        assert(r.contains(q));
                    }
                    assert forall|x: Seq<char>| dialect_classes(r, k).contains(x) implies dialect_classes(r2, k).contains(x) by {
                        let q = choose|q: (Seq<char>, Seq<char>)| #[trigger] r.contains(q) && spec_route(q.0) == Some(k) && q.1 == x;
                        assert(r2.contains(q));
                    }
                }
            }
            assert(a =~= b);
        },
    }
}

/// Law: installing registrations in order gives the namespace that depends
/// only on which registrations there are, provided no two contend for one
/// top-level name.
pub proof fn lemma_register_all_namespace(m: Map<Seq<char>, EntryModel>, regs: Seq<Registration>, n: int)
    requires
        0 <= n <= regs.len(),
        all_compatible(regs_set(regs, regs.len() as int)),
    ensures
        spec_register_all(m, regs, n) == namespace_of(m, regs_set(regs, n)),
    decreases n,
{
    let full = regs_set(regs, regs.len() as int);
    if n == 0 {
        assert(regs_set(regs, 0) =~= Set::<(Seq<char>, Seq<char>)>::empty());
        assert(namespace_of(m, regs_set(regs, 0)) =~= m);
    } else {
        lemma_register_all_namespace(m, regs, n - 1);
        let p = reg_view(regs[n - 1]);
        let prev = regs_set(regs, n - 1);
        assert(regs_set(regs, n) =~= prev.insert(p)) by {
            assert forall|q: (Seq<char>, Seq<char>)| regs_set(regs, n).contains(q) implies prev.insert(p).contains(q) by {
                let i = choose|i: int| 0 <= i < n && #[trigger] reg_view(regs[i]) == q;
                if i < n - 1 {
                    assert(prev.contains(q));
                }
            }
            assert forall|q: (Seq<char>, Seq<char>)| prev.insert(p).contains(q) implies regs_set(regs, n).contains(q) by {
                if q == p {
                    assert(reg_view(regs[n - 1]) == q);
                } else {
                    let i = choose|i: int| 0 <= i < n - 1 && #[trigger] reg_view(regs[i]) == q;
                    assert(reg_view(regs[i]) == q);
                }
            }
        }
        assert(all_compatible(prev.insert(p))) by {
            assert forall|x: (Seq<char>, Seq<char>), y: (Seq<char>, Seq<char>)|
                #![trigger prev.insert(p).contains(x), prev.insert(p).contains(y)]
                prev.insert(p).contains(x) && prev.insert(p).contains(y) implies compatible(x.0, x.1, y.0, y.1) by {
                assert(regs_set(regs, n).contains(x));
                assert(regs_set(regs, n).contains(y));
                let i = choose|i: int| 0 <= i < n && #[trigger] reg_view(regs[i]) == x;
                let j = choose|j: int| 0 <= j < n && #[trigger] reg_view(regs[j]) == y;
                assert(full.contains(x) && full.contains(y));
            }
        }
        lemma_namespace_of_step(m, prev, p);
    }
}

/// Law: the namespace does not depend on the order of the registrations.
/// Any two sequences holding the same registrations, no two of which contend
/// for one top-level name, install the same classes in the same places.
pub proof fn lemma_register_all_any_order(m: Map<Seq<char>, EntryModel>, r1: Seq<Registration>, r2: Seq<Registration>)
    requires
        regs_set(r1, r1.len() as int) == regs_set(r2, r2.len() as int),
        all_compatible(regs_set(r1, r1.len() as int)),
    ensures
        spec_register_all(m, r1, r1.len() as int) == spec_register_all(m, r2, r2.len() as int),
{
    lemma_register_all_namespace(m, r1, r1.len() as int);
    lemma_register_all_namespace(m, r2, r2.len() as int);
}

} // verus!
