//! A registry made by hand: a map from component names to file sets that a
//! caller builds and hands to the driver.
//!
//! The registry keeps its names in ascending order, each once, and never
//! holds the bulk operand. Every file set in it meets the invariant of file
//! sets.

use vstd::prelude::*;
use vstd::string::*;
use crate::components::{
    bulk_operand, component_files, get_component_file_mapping, is_component,
    supported_components, supported_names, ComponentError, ComponentFiles, ComponentFilesView,
};
use crate::order::{
    lemma_lex_lt_asymmetric, lemma_lex_lt_transitive, lemma_lex_total,
    lemma_strictly_sorted_unique, lex_lt, name_lt, names_of, strictly_sorted,
};
use crate::text::same_text;

verus! {

/// Why a component could not be put into a registry.
#[derive(Debug, Clone, Copy, PartialEq, Eq, Structural)]
pub enum RegistryError {
    /// The name is the bulk operand, which is never a key.
    ReservedName,
    /// The file set does not meet the invariant of file sets.
    InvalidFileSet,
    /// The registry holds the name already.
    DuplicateComponent,
}

/// One component of a registry.
struct Entry {
    name: String,
    files: ComponentFiles,
}

/// A map from component names to file sets.
pub struct Registry {
    entries: Vec<Entry>,
}

/// The error that putting `files` under `name` into a registry that holds
/// the name or not, as `held` says, ends with; none where it goes in.
pub open spec fn insert_error(name: Seq<char>, files: ComponentFilesView, held: bool) -> Option<
    RegistryError,
> {
    if name == bulk_operand() {
        Some(RegistryError::ReservedName)
    } else if !files.wf() {
        Some(RegistryError::InvalidFileSet)
    } else if held {
        Some(RegistryError::DuplicateComponent)
    } else {
        None
    }
}

impl Registry {
    /// The names of the registry, in its order.
    pub closed spec fn names(&self) -> Seq<Seq<char>> {
        Seq::new(self.entries@.len(), |i: int| self.entries@[i].name@)
    }

    /// The file sets of the registry, each at the index of its name.
    pub closed spec fn file_sets(&self) -> Seq<ComponentFilesView> {
        Seq::new(self.entries@.len(), |i: int| self.entries@[i].files@)
    }

    /// The invariant of a registry.
    pub open spec fn wf(&self) -> bool {
        &&& self.names().len() == self.file_sets().len()
        &&& strictly_sorted(self.names())
        &&& !self.names().contains(bulk_operand())
        &&& forall|i: int| 0 <= i < self.file_sets().len() ==> (#[trigger] self.file_sets()[i]).wf()
    }

    /// `name` is a key of the registry.
    pub open spec fn has(&self, name: Seq<char>) -> bool {
        self.names().contains(name)
    }

    /// The file set under the key `name`.
    pub open spec fn files_of(&self, name: Seq<char>) -> ComponentFilesView {
        self.file_sets()[self.names().index_of(name)]
    }

    /// What resolving `name` gives: the file set of a key, a distinct error
    /// for the bulk operand, and an error for any other name.
    pub open spec fn resolve_spec(&self, name: Seq<char>) -> Result<
        ComponentFilesView,
        ComponentError,
    > {
        if name == bulk_operand() {
            Err(ComponentError::InvalidBulkOperand)
        } else if self.has(name) {
            Ok(self.files_of(name))
        } else {
            Err(ComponentError::UnknownComponent)
        }
    }

    /// Registry completeness: every name of a registry resolves, to a file
    /// set with at least one generated file.
    pub proof fn lemma_names_resolve(&self, i: int)
        requires
            self.wf(),
            0 <= i < self.names().len(),
        ensures
            self.resolve_spec(self.names()[i]) is Ok,
            self.resolve_spec(self.names()[i])->Ok_0 == self.file_sets()[i],
            self.resolve_spec(self.names()[i])->Ok_0.generated_files.len() >= 1,
            self.resolve_spec(self.names()[i])->Ok_0.wf(),
    {
        lemma_strictly_sorted_unique(self.names(), i);
        assert(self.file_sets()[i].wf());
    }

    /// The empty registry.
    pub fn new() -> (registry: Registry)
        ensures
            registry.wf(),
            registry.names().len() == 0,
    {
        Registry { entries: Vec::new() }
    }

    /// The number of components.
    pub fn len(&self) -> (n: usize)
        ensures
            n == self.names().len(),
    {
        self.entries.len()
    }

    /// The index of the first name that does not come before `name`.
    fn position(&self, name: &str) -> (at: usize)
        requires
            self.wf(),
        ensures
            at <= self.names().len(),
            forall|j: int| 0 <= j < at ==> lex_lt(self.names()[j], name@),
            at < self.names().len() ==> !lex_lt(self.names()[at as int], name@),
            forall|j: int| at < j < self.names().len() ==> lex_lt(name@, self.names()[j]),
            self.has(name@) <==> at < self.names().len() && self.names()[at as int] == name@,
    {
        let mut at: usize = 0;
        while at < self.entries.len() && name_lt(self.entries[at].name.as_str(), name)
            invariant
                at <= self.entries.len(),
                forall|j: int| 0 <= j < at ==> lex_lt(self.names()[j], name@),
            decreases self.entries.len() - at,
        {
            at += 1;
        }
        proof {
            let names = self.names();
            assert forall|j: int| at < j < names.len() implies lex_lt(name@, names[j]) by {
                lemma_lex_total(name@, names[at as int]);
                assert(lex_lt(names[at as int], names[j]));
                if name@ != names[at as int] {
                    lemma_lex_lt_transitive(name@, names[at as int], names[j]);
                }
            }
            if self.has(name@) {
                let k = choose|k: int| 0 <= k < names.len() && names[k] == name@;
                lemma_lex_lt_asymmetric(name@, name@);
                if k < at {
                    assert(lex_lt(names[k], name@));
                } else if k > at {
                    assert(lex_lt(name@, names[k]));
                }
            }
        }
        at
    }

    /// Puts `files` under `name`.
    ///
    /// The bulk operand is refused as a name, then a file set that does not
    /// meet its invariant, then a name that the registry holds already. A
    /// refusal leaves the registry as it was.
    pub fn insert(&mut self, name: &str, files: ComponentFiles) -> (r: Result<(), RegistryError>)
        requires
            old(self).wf(),
        ensures
            final(self).wf(),
            match r {
                Ok(_) => {
                    &&& insert_error(name@, files@, old(self).has(name@)) is None
                    &&& final(self).has(name@)
                    &&& final(self).files_of(name@) == files@
                    &&& final(self).names().len() == old(self).names().len() + 1
                    &&& forall|n: Seq<char>|
                        n != name@ ==> (#[trigger] final(self).has(n) == old(self).has(n))
                    &&& forall|n: Seq<char>|
                        n != name@ && old(self).has(n) ==> #[trigger] final(self).files_of(n)
                            == old(self).files_of(n)
                },
                Err(e) => {
                    &&& insert_error(name@, files@, old(self).has(name@)) == Some(e)
                    &&& final(self).names() == old(self).names()
                    &&& final(self).file_sets() == old(self).file_sets()
                },
            },
    {
        if same_text(name, "all") {
            return Err(RegistryError::ReservedName);
        }
        if !files.is_well_formed() {
            return Err(RegistryError::InvalidFileSet);
        }
        let at = self.position(name);
        if at < self.entries.len() && same_text(self.entries[at].name.as_str(), name) {
            return Err(RegistryError::DuplicateComponent);
        }
        let ghost old_names = self.names();
        let ghost old_sets = self.file_sets();
        let ghost new_files = files@;
        self.entries.insert(at, Entry { name: String::from_str(name), files });
        proof {
            let names = self.names();
            let sets = self.file_sets();
            assert(names =~= old_names.insert(at as int, name@));
            assert(sets =~= old_sets.insert(at as int, new_files));
            if at < old_names.len() {
                lemma_lex_total(name@, old_names[at as int]);
            }
            assert forall|i: int, j: int| 0 <= i < j < names.len() implies lex_lt(
                names[i],
                names[j],
            ) by {
                if j < at {
                    assert(lex_lt(old_names[i], old_names[j]));
                } else if j == at {
                } else if i == at {
                    if j - 1 > at {
                    }
                } else if i < at {
                    assert(names[j] == old_names[j - 1]);
                    if j - 1 == at {
                        lemma_lex_lt_transitive(old_names[i], name@, old_names[at as int]);
                    } else {
                        assert(lex_lt(old_names[i], old_names[j - 1]));
                    }
                } else {
                    assert(lex_lt(old_names[i - 1], old_names[j - 1]));
                }
            }
            assert(!names.contains(bulk_operand())) by {
                if names.contains(bulk_operand()) {
                    let k = choose|k: int| 0 <= k < names.len() && names[k] == bulk_operand();
                    if k < at {
                        assert(old_names[k] == bulk_operand());
                    } else if k > at {
                        assert(old_names[k - 1] == bulk_operand());
                    }
                }
            }
            assert forall|i: int| 0 <= i < sets.len() implies (#[trigger] sets[i]).wf() by {
                if i < at {
                    assert(old_sets[i].wf());
                } else if i > at {
                    assert(old_sets[i - 1].wf());
                }
            }
            assert(names[at as int] == name@);
            lemma_strictly_sorted_unique(names, at as int);
            assert forall|n: Seq<char>| n != name@ implies (#[trigger] self.has(n)) == old(
                self,
            ).has(n) by {
                if names.contains(n) {
                    let k = choose|k: int| 0 <= k < names.len() && names[k] == n;
                    if k < at {
                        assert(old_names[k] == n);
                    } else {
                        assert(old_names[k - 1] == n);
                    }
                }
                if old_names.contains(n) {
                    let k = choose|k: int| 0 <= k < old_names.len() && old_names[k] == n;
                    if k < at {
                        assert(names[k] == n);
                    } else {
                        assert(names[k + 1] == n);
                    }
                }
            }
            assert forall|n: Seq<char>| n != name@ && old(self).has(n) implies (
            #[trigger] self.files_of(n)) == old(self).files_of(n) by {
                let k = choose|k: int| 0 <= k < old_names.len() && old_names[k] == n;
                lemma_strictly_sorted_unique(old_names, k);
                if k < at {
                    assert(names[k] == n);
                    lemma_strictly_sorted_unique(names, k);
                } else {
                    assert(names[k + 1] == n);
                    lemma_strictly_sorted_unique(names, k + 1);
                }
            }
        }
        Ok(())
    }

    /// Whether `name` may stand in a request: it is a key of the registry
    /// or the bulk operand.
    pub fn is_valid(&self, name: &str) -> (valid: bool)
        requires
            self.wf(),
        ensures
            valid == (self.has(name@) || name@ == bulk_operand()),
    {
        if same_text(name, "all") {
            return true;
        }
        let at = self.position(name);
        at < self.entries.len() && same_text(self.entries[at].name.as_str(), name)
    }

    /// The file set under `name`.
    ///
    /// Fails with `InvalidBulkOperand` for the bulk operand, which callers
    /// handle before they resolve, and with `UnknownComponent` for a name
    /// that is no key.
    pub fn resolve(&self, name: &str) -> (r: Result<ComponentFiles, ComponentError>)
        requires
            self.wf(),
        ensures
            match r {
                Ok(files) => self.resolve_spec(name@) == Ok::<ComponentFilesView, ComponentError>(
                    files@,
                ) && files@.wf(),
                Err(e) => self.resolve_spec(name@) == Err::<ComponentFilesView, ComponentError>(
                    e,
                ),
            },
    {
        if same_text(name, "all") {
            return Err(ComponentError::InvalidBulkOperand);
        }
        let at = self.position(name);
        if at < self.entries.len() && same_text(self.entries[at].name.as_str(), name) {
            proof {
                lemma_strictly_sorted_unique(self.names(), at as int);
                assert(self.file_sets()[at as int].wf());
            }
            Ok(self.entries[at].files.duplicate())
        } else {
            Err(ComponentError::UnknownComponent)
        }
    }

    /// Every key of the registry, in ascending lexicographic order. The
    /// bulk operand is never among them.
    pub fn all_names(&self) -> (names: Vec<String>)
        requires
            self.wf(),
        ensures
            names_of(names@) == self.names(),
            strictly_sorted(names_of(names@)),
            !names_of(names@).contains(bulk_operand()),
    {
        let mut names: Vec<String> = Vec::new();
        let mut i: usize = 0;
        while i < self.entries.len()
            invariant
                i <= self.entries.len(),
                names@.len() == i,
                forall|j: int| 0 <= j < i ==> names@[j]@ == self.entries@[j].name@,
            decreases self.entries.len() - i,
        {
            names.push(self.entries[i].name.clone());
            i += 1;
        }
        proof {
            assert(names_of(names@) =~= self.names());
        }
        names
    }

    /// The registry of the built-in table: it holds each component of the
    /// table, under the file set that the table gives.
    pub fn builtin() -> (registry: Registry)
        ensures
            registry.wf(),
            registry.names() == crate::components::component_names(),
            forall|n: Seq<char>| #[trigger] registry.has(n) <==> is_component(n),
            forall|n: Seq<char>|
                registry.has(n) ==> #[trigger] registry.files_of(n) == component_files(n),
    {
        let table = supported_components();
        let mut registry = Registry::new();
        let mut i: usize = 0;
        proof {
            assert(registry.names() =~= Seq::<Seq<char>>::empty());
        }
        while i < table.len()
            invariant
                i <= table.len(),
                names_of(table@) == supported_names(),
                registry.wf(),
                forall|n: Seq<char>| #[trigger]
                    registry.has(n) <==> supported_names().subrange(0, i as int).contains(n)
                        && is_component(n) && n != bulk_operand() && component_files(n).wf(),
                forall|n: Seq<char>|
                    registry.has(n) ==> #[trigger] registry.files_of(n) == component_files(n),
            decreases table.len() - i,
        {
            let name = table[i].as_str();
            let ghost seen = supported_names().subrange(0, i as int);
            let ghost before = registry;
            proof {
                assert(names_of(table@)[i as int] == name@);
                assert(supported_names().subrange(0, i + 1) =~= seen.push(name@));
                assert forall|n: Seq<char>|
                    supported_names().subrange(0, i + 1).contains(n) <==> seen.contains(n) || n
                        == name@ by {
                    let next = supported_names().subrange(0, i + 1);
                    if seen.contains(n) {
                        let k = choose|k: int| 0 <= k < seen.len() && seen[k] == n;
                        assert(next[k] == n);
                    }
                    if n == name@ {
                        assert(next[i as int] == n);
                    }
                    if next.contains(n) {
                        let k = choose|k: int| 0 <= k < next.len() && next[k] == n;
                        if k < i {
                            assert(seen[k] == n);
                        }
                    }
                }
            }
            match get_component_file_mapping(name) {
                Ok(files) => {
                    let ghost given = files@;
                    let r = registry.insert(name, files);
                    proof {
                        assert(given == component_files(name@));
                        assert forall|n: Seq<char>| #[trigger]
                            registry.has(n) <==> (seen.contains(n) || n == name@) && is_component(
                                n,
                            ) && n != bulk_operand() && component_files(n).wf() by {
                            if n != name@ {
                                assert(registry.has(n) == before.has(n));
                            }
                        }
                        assert forall|n: Seq<char>| registry.has(n) implies (
                        #[trigger] registry.files_of(n)) == component_files(n) by {
                            if n != name@ {
                                assert(registry.has(n) == before.has(n));
                                if r is Ok {
                                    assert(registry.files_of(n) == before.files_of(n));
                                }
                            } else if r is Err {
                                assert(before.has(n));
                            }
                        }
                    }
                },
                Err(_) => {
                    proof {
                        assert(!before.has(name@));
                    }
                },
            }
            i += 1;
        }
        proof {
            assert(supported_names().subrange(0, table@.len() as int) =~= supported_names());
            assert forall|n: Seq<char>| is_component(n) implies supported_names().contains(n)
                && n != bulk_operand() && component_files(n).wf() by {
                let k = choose|k: int|
                    0 <= k < crate::components::component_names().len()
                        && crate::components::component_names()[k] == n;
                assert(supported_names()[k] == n);
                crate::table::lemma_table_well_formed(n);
            }
            let held = registry.names();
            let table = crate::components::component_names();
            crate::table::lemma_component_names_sorted();
            if held.len() > 0 {
                lemma_strictly_sorted_unique(held, 0);
            }
            if table.len() > 0 {
                lemma_strictly_sorted_unique(table, 0);
            }
            held.lemma_multiset_has_no_duplicates();
            table.lemma_multiset_has_no_duplicates();
            held.to_multiset_ensures();
            table.to_multiset_ensures();
            assert forall|n: Seq<char>| held.to_multiset().count(n) == table.to_multiset().count(
                n,
            ) by {
                assert(registry.has(n) <==> is_component(n));
            }
            assert(held.to_multiset() =~= table.to_multiset());
            crate::order::lemma_sorted_unique(held, table);
        }
        registry
    }
}

} // verus!
