use vstd::prelude::*;

verus! {

/// Marker component: tags an entity as a person. Carries no data and only
/// serves to filter queries to a subset of entities.
#[derive(Clone, Copy)]
pub struct Person;

/// Name component: a single string value owned exclusively by the entity it
/// is attached to, mutable in place.
pub struct Name(pub String);

impl View for Name {
    type V = Seq<char>;

    open spec fn view(&self) -> Seq<char> {
        self.0@
    }
}

/// One stored name component together with the entity that owns it.
pub struct NameEntry {
    pub entity: u64,
    pub name: Name,
}

/// Abstract model of the store: the person-marked entity ids and the name
/// components, each in insertion order, plus the next fresh entity id.
pub struct StoreView {
    pub persons: Seq<u64>,
    pub names: Seq<(u64, Seq<char>)>,
    pub next: u64,
}

/// Holds typed data attached to entities. An entity is an opaque `u64` id
/// with no intrinsic data; it exists only as a key associating components.
/// Each component type is stored in its own typed storage, in insertion
/// order, keyed by the entity id.
pub struct ComponentStore {
    pub persons: Vec<u64>,
    pub names: Vec<NameEntry>,
    pub next: u64,
}

impl View for ComponentStore {
    type V = StoreView;

    open spec fn view(&self) -> StoreView {
        StoreView {
            persons: self.persons@,
            names: self.names@.map_values(|e: NameEntry| (e.entity, e.name@)),
            next: self.next,
        }
    }
}

/// The abstract value of a sequence of (entity, name) pairs handed out by
/// the query.
pub open spec fn pairs_view(out: Seq<(u64, String)>) -> Seq<(u64, Seq<char>)> {
    out.map_values(|p: (u64, String)| (p.0, p.1@))
}

/// The view a spawn request's optional name component contributes.
pub open spec fn name_view(name: Option<Name>) -> Option<Seq<char>> {
    match name {
        Option::Some(n) => Option::Some(n@),
        Option::None => Option::None,
    }
}

/// The store after creating one new entity carrying the requested
/// components: the fresh id is the old `next`, and each storage is extended
/// exactly when the matching component was requested.
pub open spec fn spawn_view(v: StoreView, person: bool, name: Option<Seq<char>>) -> StoreView {
    StoreView {
        persons: if person {
            v.persons.push(v.next)
        } else {
            v.persons
        },
        names: match name {
            Option::Some(n) => v.names.push((v.next, n)),
            Option::None => v.names,
        },
        next: ((v.next + 1) as u64),
    }
}

/// The name components whose entity also carries the person marker, in
/// insertion order of the name storage.
pub open spec fn person_names_of(persons: Seq<u64>, names: Seq<(u64, Seq<char>)>) -> Seq<
    (u64, Seq<char>),
>
    decreases names.len(),
{
    if names.len() == 0 {
        Seq::empty()
    } else {
        let rest = person_names_of(persons, names.drop_last());
        if persons.contains(names.last().0) {
            rest.push(names.last())
        } else {
            rest
        }
    }
}

impl StoreView {
    /// Well-formedness: at most one instance of a component type per entity,
    /// and every stored entity id is below the next fresh id.
    pub open spec fn wf(self) -> bool {
        &&& (forall|i: int, j: int|
            0 <= i < j < self.persons.len() ==> self.persons[i] != self.persons[j])
        &&& (forall|i: int, j: int|
            0 <= i < j < self.names.len() ==> self.names[i].0 != self.names[j].0)
        &&& (forall|i: int| 0 <= i < self.persons.len() ==> self.persons[i] < self.next)
        &&& (forall|i: int| 0 <= i < self.names.len() ==> self.names[i].0 < self.next)
    }

    /// Whether the name entry at `i` belongs to a person-marked entity and
    /// equals `target`.
    pub open spec fn is_match(self, i: int, target: Seq<char>) -> bool {
        self.persons.contains(self.names[i].0) && self.names[i].1 == target
    }

    /// The first index at or after `i` whose entry matches `target`, or the
    /// length of the name storage when none does.
    pub open spec fn find_from(self, target: Seq<char>, i: int) -> int
        decreases self.names.len() - i,
    {
        if i < 0 || i >= self.names.len() {
            self.names.len() as int
        } else if self.is_match(i, target) {
            i
        } else {
            self.find_from(target, i + 1)
        }
    }

    /// The first index whose entry matches `target`, or the length of the
    /// name storage when none does.
    pub open spec fn find_first(self, target: Seq<char>) -> int {
        self.find_from(target, 0)
    }

    /// The store after renaming the first person-marked entity whose name
    /// equals `target` to `replacement`; unchanged when none matches.
    pub open spec fn rename_first(self, target: Seq<char>, replacement: Seq<char>) -> StoreView {
        let f = self.find_first(target);
        if f < self.names.len() {
            StoreView {
                persons: self.persons,
                names: self.names.update(f, (self.names[f].0, replacement)),
                next: self.next,
            }
        } else {
            self
        }
    }

    /// The query result over this store: person-marked name components in
    /// insertion order.
    pub open spec fn person_names(self) -> Seq<(u64, Seq<char>)> {
        person_names_of(self.persons, self.names)
    }
}

impl ComponentStore {
    /// An empty store; the first spawned entity will get id 0.
    pub fn new() -> (s: ComponentStore)
        ensures
            s@ == (StoreView {
                persons: Seq::<u64>::empty(),
                names: Seq::<(u64, Seq<char>)>::empty(),
                next: 0,
            }),
            s@.wf(),
    {
        let s = ComponentStore { persons: Vec::new(), names: Vec::new(), next: 0 };
        proof {
            assert(s@.names =~= Seq::<(u64, Seq<char>)>::empty());
        }
        s
    }

    /// Creates a new entity carrying the given component values and returns
    /// its id. At most one instance of each component type is attached.
    pub fn spawn(&mut self, person: Option<Person>, name: Option<Name>) -> (e: u64)
        requires
            old(self)@.wf(),
            old(self).next < u64::MAX,
        ensures
            e == old(self)@.next,
            final(self)@ == spawn_view(old(self)@, person is Some, name_view(name)),
            final(self)@.wf(),
    {
        let e = self.next;
        let ghost v0 = self@;
        let ghost nv = name_view(name);
        match person {
            Option::Some(_p) => {
                self.persons.push(e);
            },
            Option::None => {},
        }
        match name {
            Option::Some(n) => {
                self.names.push(NameEntry { entity: e, name: n });
            },
            Option::None => {},
        }
        self.next = self.next + 1;
        proof {
            let f = |en: NameEntry| (en.entity, en.name@);
            match nv {
                Option::Some(n) => {
                    assert(self.names@.map_values(f) =~= v0.names.push((e, n)));
                },
                Option::None => {
                    assert(self.names@.map_values(f) =~= v0.names);
                },
            }
        }
        e
    }

    /// Whether some entity carries the person marker under this id.
    pub fn persons_contain(&self, id: u64) -> (b: bool)
        ensures
            b == self@.persons.contains(id),
    {
        let n: usize = self.persons.len();
        let mut i: usize = 0;
        while i < n
            invariant
                i <= n,
                n == self.persons@.len(),
                forall|k: int| 0 <= k < i ==> self.persons@[k] != id,
            decreases n - i,
        {
            if self.persons[i] == id {
                return true;
            }
            i = i + 1;
        }
        false
    }

    /// Query: all name components on person-marked entities, as
    /// (entity, name) pairs in insertion order. Matches nothing: the result
    /// is empty. The result is a function of the store value alone.
    pub fn query_person_names(&self) -> (out: Vec<(u64, String)>)
        ensures
            pairs_view(out@) == self@.person_names(),
    {
        let mut out: Vec<(u64, String)> = Vec::new();
        let n: usize = self.names.len();
        let mut i: usize = 0;
        proof {
            assert(pairs_view(out@) =~= person_names_of(self@.persons, self@.names.take(0)));
        }
        while i < n
            invariant
                i <= n,
                n == self.names@.len(),
                pairs_view(out@) == person_names_of(self@.persons, self@.names.take(i as int)),
            decreases n - i,
        {
            let e = self.names[i].entity;
            let ghost prev = pairs_view(out@);
            proof {
                assert(self@.names[i as int] == (self.names@[i as int].entity,
                self.names@[i as int].name@));
            }
            if self.persons_contain(e) {
                let s: String = self.names[i].name.0.clone();
                out.push((e, s));
            }
            i = i + 1;
            proof {
                let pre = self@.names.take(i as int);
                assert(pre.drop_last() =~= self@.names.take(i - 1));
                assert(pre.last() == self@.names[i - 1]);
                if self@.persons.contains(self@.names[i - 1].0) {
                    assert(pairs_view(out@) =~= prev.push(self@.names[i - 1]));
                } else {
                    assert(pairs_view(out@) =~= prev);
                }
            }
        }
        proof {
            assert(self@.names.take(n as int) =~= self@.names);
        }
        out
    }

    /// Renames the first person-marked entity whose name exactly equals
    /// `target` to `replacement` and stops scanning; later matches, and the
    /// store when nothing matches, are left as they are.
    pub fn rename_first_match(&mut self, target: &str, replacement: &str)
        ensures
            final(self)@ == old(self)@.rename_first(target@, replacement@),
    {
        let ghost v0 = self@;
        let target_owned: String = target.to_owned();
        let n: usize = self.names.len();
        let mut i: usize = 0;
        while i < n
            invariant
                i <= n,
                *self == *old(self),
                v0 == self@,
                n == self.names@.len(),
                target_owned@ == target@,
                v0.find_first(target@) == v0.find_from(target@, i as int),
            decreases n - i,
        {
            proof {
                assert(v0.names[i as int] == (self.names@[i as int].entity,
                self.names@[i as int].name@));
            }
            if self.persons_contain(self.names[i].entity) {
                if self.names[i].name.0 == target_owned {
                    proof {
                        assert(v0.is_match(i as int, target@));
                        assert(v0.find_first(target@) == i as int);
                    }
                    self.names[i].name = Name(replacement.to_owned());
                    proof {
                        let f = |en: NameEntry| (en.entity, en.name@);
                        assert(self@.names =~= v0.names.update(
                            i as int,
                            (v0.names[i as int].0, replacement@),
                        ));
                    }
                    return;
                }
            }
            i = i + 1;
            proof {
                assert(!v0.is_match(i - 1, target@));
            }
        }
        proof {
            assert(v0.find_first(target@) == v0.names.len());
        }
    }
}

/// Renaming preserves well-formedness: it changes one name value and no
/// entity id.
pub proof fn lemma_rename_first_wf(v: StoreView, target: Seq<char>, replacement: Seq<char>)
    requires
        v.wf(),
    ensures
        v.rename_first(target, replacement).wf(),
        v.rename_first(target, replacement).next == v.next,
{
    let f = v.find_first(target);
    lemma_find_from_props(v, target, 0);
    let v2 = v.rename_first(target, replacement);
    assert(forall|i: int| 0 <= i < v2.names.len() ==> v2.names[i].0 == v.names[i].0);
}

/// Bounds and meaning of `find_from`: it stays within range, lands on a
/// match whenever it is in range, and skips no match before it.
pub proof fn lemma_find_from_props(v: StoreView, target: Seq<char>, i: int)
    requires
        0 <= i <= v.names.len(),
    ensures
        i <= v.find_from(target, i) <= v.names.len(),
        v.find_from(target, i) < v.names.len() ==> v.is_match(v.find_from(target, i), target),
        forall|k: int| i <= k < v.find_from(target, i) ==> !v.is_match(k, target),
    decreases v.names.len() - i,
{
    if i < v.names.len() && !v.is_match(i, target) {
        lemma_find_from_props(v, target, i + 1);
    }
}

/// The rename touches only the first matching entry: when some earlier
/// entry already matches, any later entry — in particular a second entity
/// with the very same name — is left unchanged.
pub proof fn lemma_rename_first_leaves_rest(
    v: StoreView,
    target: Seq<char>,
    replacement: Seq<char>,
    j: int,
)
    requires
        0 <= j < v.names.len(),
        exists|i: int| 0 <= i < j && v.is_match(i, target),
    ensures
        v.rename_first(target, replacement).names[j] == v.names[j],
{
    let i = choose|i: int| 0 <= i < j && v.is_match(i, target);
    lemma_find_from_props(v, target, 0);
    assert(v.find_first(target) <= i);
}

/// Every person-marked name entry appears in the query result.
pub proof fn lemma_person_names_has(persons: Seq<u64>, names: Seq<(u64, Seq<char>)>, k: int)
    requires
        0 <= k < names.len(),
        persons.contains(names[k].0),
    ensures
        person_names_of(persons, names).contains(names[k]),
    decreases names.len(),
{
    let rest = person_names_of(persons, names.drop_last());
    if k == names.len() - 1 {
        assert(rest.push(names.last())[rest.len() as int] == names[k]);
    } else {
        assert(names.drop_last()[k] == names[k]);
        lemma_person_names_has(persons, names.drop_last(), k);
        let w = choose|w: int| 0 <= w < rest.len() && rest[w] == names[k];
        if persons.contains(names.last().0) {
            assert(rest.push(names.last())[w] == names[k]);
        }
    }
}

/// Re-querying the store without an intervening mutation yields the same
/// entity set and order every time: the query result is a function of the
/// store value alone.
pub proof fn lemma_query_deterministic(
    v: StoreView,
    r1: Seq<(u64, Seq<char>)>,
    r2: Seq<(u64, Seq<char>)>,
)
    requires
        r1 == v.person_names(),
        r2 == v.person_names(),
    ensures
        r1 == r2,
{
}

} // verus!
