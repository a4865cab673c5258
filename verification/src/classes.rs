//! The Java classes that are looked up once, when the app loads the
//! library, and the registry that holds a reference to each.
use vstd::prelude::*;

verus! {

/// The JNI names of the classes that are loaded up front, in order.
pub open spec fn classes_to_load_model() -> Seq<Seq<char>> {
    seq![
        "java/util/ArrayList"@,
        "net/mullvad/mullvadvpn/model/AccountData"@,
        "net/mullvad/mullvadvpn/model/Constraint$Any"@,
        "net/mullvad/mullvadvpn/model/Constraint$Only"@,
        "net/mullvad/mullvadvpn/model/LocationConstraint$City"@,
        "net/mullvad/mullvadvpn/model/LocationConstraint$Country"@,
        "net/mullvad/mullvadvpn/model/LocationConstraint$Hostname"@,
        "net/mullvad/mullvadvpn/model/Relay"@,
        "net/mullvad/mullvadvpn/model/RelayList"@,
        "net/mullvad/mullvadvpn/model/RelayListCity"@,
        "net/mullvad/mullvadvpn/model/RelayListCountry"@,
        "net/mullvad/mullvadvpn/model/RelaySettings$CustomTunnelEndpoint"@,
        "net/mullvad/mullvadvpn/model/RelaySettings$RelayConstraints"@,
        "net/mullvad/mullvadvpn/model/RelaySettingsUpdate$CustomTunnelEndpoint"@,
        "net/mullvad/mullvadvpn/model/RelaySettingsUpdate$RelayConstraintsUpdate"@,
        "net/mullvad/mullvadvpn/model/Settings"@,
    ]
}

/// The JNI names of the classes that are loaded up front, in order.
pub fn classes_to_load() -> (r: Vec<String>)
    ensures
        r.deep_view() == classes_to_load_model(),
{
    let names = [
        "java/util/ArrayList",
        "net/mullvad/mullvadvpn/model/AccountData",
        "net/mullvad/mullvadvpn/model/Constraint$Any",
        "net/mullvad/mullvadvpn/model/Constraint$Only",
        "net/mullvad/mullvadvpn/model/LocationConstraint$City",
        "net/mullvad/mullvadvpn/model/LocationConstraint$Country",
        "net/mullvad/mullvadvpn/model/LocationConstraint$Hostname",
        "net/mullvad/mullvadvpn/model/Relay",
        "net/mullvad/mullvadvpn/model/RelayList",
        "net/mullvad/mullvadvpn/model/RelayListCity",
        "net/mullvad/mullvadvpn/model/RelayListCountry",
        "net/mullvad/mullvadvpn/model/RelaySettings$CustomTunnelEndpoint",
        "net/mullvad/mullvadvpn/model/RelaySettings$RelayConstraints",
        "net/mullvad/mullvadvpn/model/RelaySettingsUpdate$CustomTunnelEndpoint",
        "net/mullvad/mullvadvpn/model/RelaySettingsUpdate$RelayConstraintsUpdate",
        "net/mullvad/mullvadvpn/model/Settings",
    ];
    let mut r: Vec<String> = Vec::new();
    for i in 0..16
        invariant
            r@.len() == i,
            forall|j: int| 0 <= j < i ==> #[trigger] r@[j]@ == names@[j]@,
    {
        r.push(String::from_str(names[i]));
    }
    assert(r.deep_view() =~= classes_to_load_model());
    r
}

/// References to loaded classes, by the classes' JNI names.
pub struct ClassRegistry<H> {
    entries: Vec<(String, H)>,
}

impl<H> ClassRegistry<H> {
    /// No name occurs twice.
    #[verifier::type_invariant]
    closed spec fn distinct_names(self) -> bool {
        forall|i: int, j: int|
            0 <= i < self.entries@.len() && 0 <= j < self.entries@.len() && i != j
                ==> #[trigger] self.entries@[i].0@ != #[trigger] self.entries@[j].0@
    }

    closed spec fn holds(self, name: Seq<char>) -> bool {
        exists|i: int| 0 <= i < self.entries@.len() && #[trigger] self.entries@[i].0@ == name
    }

    closed spec fn index_of(self, name: Seq<char>) -> int {
        choose|i: int| 0 <= i < self.entries@.len() && #[trigger] self.entries@[i].0@ == name
    }

    /// The registry as a map from class names to references.
    pub closed spec fn view(self) -> Map<Seq<char>, H> {
        Map::new(|name: Seq<char>| self.holds(name), |name: Seq<char>| self.entries@[self.index_of(name)].1)
    }

    /// An empty registry.
    pub fn new() -> (r: Self)
        ensures
            r.view() == Map::<Seq<char>, H>::empty(),
    {
        let r = ClassRegistry { entries: Vec::new() };
        assert(r.view() =~= Map::<Seq<char>, H>::empty());
        r
    }

    /// The position of the entry named `name`, if there is one.
    fn find(&self, name: &String) -> (r: Option<usize>)
        ensures
            match r {
                Some(i) => i < self.entries@.len() && self.entries@[i as int].0@ == name@,
                None => forall|j: int| 0 <= j < self.entries@.len() ==> #[trigger] self.entries@[j].0@ != name@,
            },
    {
        let n = self.entries.len();
        let mut i: usize = 0;
        while i < n
            invariant
                n == self.entries@.len(),
                i <= n,
                forall|j: int| 0 <= j < i ==> #[trigger] self.entries@[j].0@ != name@,
            decreases n - i,
        {
            if self.entries[i].0 == *name {
                return Some(i);
            }
            i = i + 1;
        }
        None
    }

    /// With distinct names, the entry that `view` reads for a name held at
    /// position `i` is the one at `i`.
    proof fn lemma_index_of(self, i: int)
        requires
            self.distinct_names(),
            0 <= i < self.entries@.len(),
        ensures
            self.holds(self.entries@[i].0@),
            self.index_of(self.entries@[i].0@) == i,
    {
        let name = self.entries@[i].0@;
        assert(self.entries@[i].0@ == name);
        let j = self.index_of(name);
        if j != i {
            assert(self.entries@[j].0@ != self.entries@[i].0@);
        }
    }

    /// Records `class` under `name`, in place of what was recorded there.
    pub fn insert(&mut self, name: String, class: H)
        ensures
            final(self).view() == old(self).view().insert(name@, class),
    {
        proof {
            use_type_invariant(&*self);
        }
        let ghost before = self.view();
        let ghost old_self = *self;
        let ghost key = name@;
        let found = self.find(&name);
        let mut entries = Vec::new();
        std::mem::swap(&mut entries, &mut self.entries);
        let ghost old_entries = entries@;
        assert(old_entries == old_self.entries@);
        let ghost at: int;
        match found {
            Some(i) => {
                entries.set(i, (name, class));
                proof {
                    at = i as int;
                }
            },
            None => {
                entries.push((name, class));
                proof {
                    at = old_entries.len() as int;
                }
            },
        }
        proof {
            assert(entries@[at].0@ == key);
            assert forall|j: int| 0 <= j < entries@.len() && j != at implies
                j < old_entries.len() && #[trigger] entries@[j] == old_entries[j] && old_entries[j].0@ != key by {
                if found is Some {
                    assert(old_entries[at].0@ == key);
                    assert(old_self.entries@[j].0@ != old_self.entries@[at].0@);
                }
            }
            assert forall|a: int, b: int|
                0 <= a < entries@.len() && 0 <= b < entries@.len() && a != b
                    implies #[trigger] entries@[a].0@ != #[trigger] entries@[b].0@ by {
                if a != at && b != at {
                    assert(old_self.entries@[a].0@ != old_self.entries@[b].0@);
                }
            }
        }
        self.entries = entries;
        proof {
            let new_self = *self;
            assert(new_self.entries@ == entries@);
            assert forall|k: Seq<char>| #[trigger] new_self.holds(k) == before.insert(key, class).contains_key(k) by {
                if new_self.holds(k) {
                    let j = choose|j: int| 0 <= j < new_self.entries@.len() && #[trigger] new_self.entries@[j].0@ == k;
                    if j != at {
                        assert(old_self.entries@[j].0@ == k);
                        assert(old_self.holds(k));
                    }
                }
                if before.contains_key(k) && k != key {
                    assert(old_self.holds(k));
                    let j = choose|j: int| 0 <= j < old_self.entries@.len() && #[trigger] old_self.entries@[j].0@ == k;
                    if found is Some {
                        assert(j != at);
                    }
                    assert(new_self.entries@[j].0@ == k);
                }
            }
            assert forall|k: Seq<char>| #[trigger] new_self.holds(k) implies new_self.view()[k] == before.insert(key, class)[k] by {
                let j = new_self.index_of(k);
                new_self.lemma_index_of(j);
                if k == key {
                    new_self.lemma_index_of(at);
                } else {
                    assert(j != at);
                    old_self.lemma_index_of(j);
                }
            }
            assert(new_self.view() =~= before.insert(key, class));
        }
    }

    /// The reference recorded under `name`, if any.
    pub fn get_class(&self, name: &String) -> (r: Option<&H>)
        ensures
            r == (if self.view().contains_key(name@) {
                Some(&self.view()[name@])
            } else {
                None
            }),
    {
        proof {
            use_type_invariant(self);
        }
        match self.find(name) {
            Some(i) => {
                proof {
                    self.lemma_index_of(i as int);
                }
                Some(&self.entries[i].1)
            },
            None => None,
        }
    }
}

} // verus!
