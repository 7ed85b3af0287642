//! The texture registry: logical names and the handles a renderer gave out
//! for them.

use vstd::prelude::*;
use vstd::string::*;

verus! {

/// A misuse of the library by its caller: a programming error, never a
/// condition to recover from.
#[derive(Debug, PartialEq, Eq)]
pub enum PreconditionViolation {
    /// A texture was looked up under a name that was never registered.
    TextureNotRegistered { name: String },
}

/// One registration.
#[derive(Debug)]
struct Registration {
    name: String,
    handle: usize,
}

/// A mapping from names to texture handles. A name occurs at most once.
///
/// A registry is made once at startup and handed to whoever needs a lookup;
/// there is no ambient one.
#[derive(Debug)]
pub struct TextureRegistry {
    entries: Vec<Registration>,
}

/// Some entry of `entries` carries `name`.
spec fn registers(entries: Seq<Registration>, name: Seq<char>) -> bool {
    exists|i: int| 0 <= i < entries.len() && #[trigger] entries[i].name@ == name
}

/// The place of `name` among `entries`.
spec fn place_of(entries: Seq<Registration>, name: Seq<char>) -> int {
    choose|i: int| 0 <= i < entries.len() && #[trigger] entries[i].name@ == name
}

/// No two entries carry the same name.
spec fn names_are_unique(entries: Seq<Registration>) -> bool {
    forall|i: int, j: int|
        0 <= i < entries.len() && 0 <= j < entries.len() && #[trigger] entries[i].name@
            == #[trigger] entries[j].name@ ==> i == j
}

/// The mapping that a list of entries with unique names stands for.
spec fn mapping_of(entries: Seq<Registration>) -> Map<Seq<char>, usize> {
    Map::new(
        |name: Seq<char>| registers(entries, name),
        |name: Seq<char>| entries[place_of(entries, name)].handle,
    )
}

/// With unique names, the mapping holds each entry's handle under its name.
proof fn lemma_mapping_holds_entry(entries: Seq<Registration>, i: int)
    requires
        names_are_unique(entries),
        0 <= i < entries.len(),
    ensures
        mapping_of(entries).contains_key(entries[i].name@),
        mapping_of(entries)[entries[i].name@] == entries[i].handle,
{
    let name = entries[i].name@;
    assert(registers(entries, name));
    let j = place_of(entries, name);
    assert(entries[j].name@ == entries[i].name@);
}

impl View for TextureRegistry {
    type V = Map<Seq<char>, usize>;

    closed spec fn view(&self) -> Map<Seq<char>, usize> {
        mapping_of(self.entries@)
    }
}

impl TextureRegistry {
    #[verifier::type_invariant]
    spec fn well_formed(self) -> bool {
        names_are_unique(self.entries@)
    }

    /// The place of `name` among the entries, if it is registered.
    fn find(&self, name: &str) -> (found: Option<usize>)
        ensures
            match found {
                Some(i) => i < self.entries@.len() && self.entries@[i as int].name@ == name@,
                None => !registers(self.entries@, name@),
            },
    {
        let wanted = String::from_str(name);
        let mut i: usize = 0;
        while i < self.entries.len()
            invariant
                i <= self.entries@.len(),
                wanted@ == name@,
                forall|k: int| 0 <= k < i ==> self.entries@[k].name@ != name@,
            decreases self.entries@.len() - i,
        {
            if self.entries[i].name == wanted {
                return Some(i);
            }
            i = i + 1;
        }
        None
    }

    /// An empty registry.
    pub fn new() -> (registry: TextureRegistry)
        ensures
            registry@ == Map::<Seq<char>, usize>::empty(),
    {
        let registry = TextureRegistry { entries: Vec::new() };
        assert(registry@ =~= Map::<Seq<char>, usize>::empty());
        registry
    }

    /// Registers `handle` under `name`. A name registered before now answers
    /// with the new handle, and the handle it had is returned.
    pub fn insert(&mut self, name: &str, handle: usize) -> (previous: Option<usize>)
        ensures
            final(self)@ == old(self)@.insert(name@, handle),
            previous == if old(self)@.contains_key(name@) {
                Some(old(self)@[name@])
            } else {
                None::<usize>
            },
    {
        proof {
            use_type_invariant(&*self);
        }
        let ghost before = self.entries@;
        match self.find(name) {
            Some(i) => {
                let previous = self.entries[i].handle;
                proof {
                    lemma_mapping_holds_entry(before, i as int);
                }
                let mut entries: Vec<Registration> = Vec::new();
                std::mem::swap(&mut self.entries, &mut entries);
                entries.set(i, Registration { name: String::from_str(name), handle });
                proof {
                    let after = entries@;
                    assert(names_are_unique(after)) by {
                        assert forall|a: int, b: int|
                            0 <= a < after.len() && 0 <= b < after.len() && #[trigger] after[a].name@
                                == #[trigger] after[b].name@ implies a == b by {
                            assert(after[a].name@ == before[a].name@);
                            assert(after[b].name@ == before[b].name@);
                        }
                    }
                    assert(mapping_of(after) =~= mapping_of(before).insert(name@, handle)) by {
                        assert forall|key: Seq<char>|
                            mapping_of(after).contains_key(key) <==> mapping_of(before).insert(
                                name@,
                                handle,
                            ).contains_key(key) by {
                            if registers(after, key) {
                                let a = place_of(after, key);
                                assert(before[a].name@ == key);
                            }
                            if registers(before, key) {
                                let b = place_of(before, key);
                                assert(after[b].name@ == key);
                            }
                            if key == name@ {
                                assert(after[i as int].name@ == key);
                            }
                        }
                        assert forall|key: Seq<char>| mapping_of(after).contains_key(key) implies mapping_of(
                            after,
                        )[key] == mapping_of(before).insert(name@, handle)[key] by {
                            let a = place_of(after, key);
                            lemma_mapping_holds_entry(after, a);
                            if key == name@ {
                                assert(after[i as int].name@ == after[a].name@);
                            } else {
                                assert(before[a].name@ == key);
                                lemma_mapping_holds_entry(before, a);
                            }
                        }
                    }
                }
                self.entries = entries;
                Some(previous)
            },
            None => {
                let mut entries: Vec<Registration> = Vec::new();
                std::mem::swap(&mut self.entries, &mut entries);
                entries.push(Registration { name: String::from_str(name), handle });
                proof {
                    let after = entries@;
                    let last = before.len() as int;
                    assert(names_are_unique(after)) by {
                        assert forall|a: int, b: int|
                            0 <= a < after.len() && 0 <= b < after.len() && #[trigger] after[a].name@
                                == #[trigger] after[b].name@ implies a == b by {
                            if a < last {
                                assert(before[a].name@ == after[a].name@);
                            }
                            if b < last {
                                assert(before[b].name@ == after[b].name@);
                            }
                        }
                    }
                    assert(mapping_of(after) =~= mapping_of(before).insert(name@, handle)) by {
                        assert forall|key: Seq<char>|
                            mapping_of(after).contains_key(key) <==> mapping_of(before).insert(
                                name@,
                                handle,
                            ).contains_key(key) by {
                            if registers(after, key) {
                                let a = place_of(after, key);
                                if a < last {
                                    assert(before[a].name@ == key);
                                }
                            }
                            if registers(before, key) {
                                let b = place_of(before, key);
                                assert(after[b].name@ == key);
                            }
                            if key == name@ {
                                assert(after[last].name@ == key);
                            }
                        }
                        assert forall|key: Seq<char>| mapping_of(after).contains_key(key) implies mapping_of(
                            after,
                        )[key] == mapping_of(before).insert(name@, handle)[key] by {
                            let a = place_of(after, key);
                            lemma_mapping_holds_entry(after, a);
                            if key != name@ {
                                assert(before[a].name@ == key);
                                lemma_mapping_holds_entry(before, a);
                            } else {
                                assert(after[last].name@ == after[a].name@);
                            }
                        }
                    }
                }
                self.entries = entries;
                None
            },
        }
    }

    /// The handle registered under `name`, if there is one.
    pub fn get(&self, name: &str) -> (handle: Option<usize>)
        ensures
            handle == if self@.contains_key(name@) {
                Some(self@[name@])
            } else {
                None::<usize>
            },
    {
        proof {
            use_type_invariant(self);
        }
        match self.find(name) {
            Some(i) => {
                proof {
                    lemma_mapping_holds_entry(self.entries@, i as int);
                }
                Some(self.entries[i].handle)
            },
            None => None,
        }
    }

    /// The handle registered under `name`. To ask for a name that was never
    /// registered is a precondition violation, and is reported as one.
    pub fn lookup(&self, name: &str) -> (result: Result<usize, PreconditionViolation>)
        ensures
            match result {
                Ok(handle) => self@.contains_key(name@) && handle == self@[name@],
                Err(PreconditionViolation::TextureNotRegistered { name: missing }) => {
                    &&& !self@.contains_key(name@)
                    &&& missing@ == name@
                },
            },
    {
        match self.get(name) {
            Some(handle) => Ok(handle),
            None => Err(PreconditionViolation::TextureNotRegistered { name: String::from_str(name) }),
        }
    }

    /// How many names are registered.
    pub fn len(&self) -> (count: usize)
        ensures
            count == self@.dom().len(),
            self@.dom().finite(),
    {
        proof {
            use_type_invariant(self);
            lemma_mapping_size(self.entries@);
        }
        self.entries.len()
    }
}

/// With unique names, the mapping has as many keys as there are entries.
proof fn lemma_mapping_size(entries: Seq<Registration>)
    requires
        names_are_unique(entries),
    ensures
        mapping_of(entries).dom().finite(),
        mapping_of(entries).dom().len() == entries.len(),
    decreases entries.len(),
{
    if entries.len() == 0 {
        assert(mapping_of(entries).dom() =~= Set::<Seq<char>>::empty());
    } else {
        let rest = entries.drop_last();
        let last = entries.last();
        assert(names_are_unique(rest)) by {
            assert forall|a: int, b: int|
                0 <= a < rest.len() && 0 <= b < rest.len() && #[trigger] rest[a].name@
                    == #[trigger] rest[b].name@ implies a == b by {
                assert(entries[a].name@ == entries[b].name@);
            }
        }
        lemma_mapping_size(rest);
        assert(!mapping_of(rest).dom().contains(last.name@)) by {
            if registers(rest, last.name@) {
                let a = place_of(rest, last.name@);
                assert(entries[a].name@ == entries[entries.len() - 1].name@);
            }
        }
        assert(mapping_of(entries).dom() =~= mapping_of(rest).dom().insert(last.name@)) by {
            assert forall|key: Seq<char>|
                mapping_of(entries).dom().contains(key) <==> mapping_of(rest).dom().insert(
                    last.name@,
                ).contains(key) by {
                if registers(entries, key) {
                    let a = place_of(entries, key);
                    if a < rest.len() {
                        assert(rest[a].name@ == key);
                    }
                }
                if registers(rest, key) {
                    let b = place_of(rest, key);
                    assert(entries[b].name@ == key);
                }
                if key == last.name@ {
                    assert(entries[entries.len() - 1].name@ == key);
                }
            }
        }
    }
}

} // verus!
