//! The bulk run: adding every component, one after the other.
//!
//! A component that fails is noted and the run goes on with the next one:
//! each component is attempted once, in order, whatever became of the ones
//! before it. The caller does the work of each component and reports how it
//! ended.

use vstd::prelude::*;
use vstd::string::*;
use crate::order::names_of;
use crate::text::{decimal, decimal_chars, string_of};

verus! {

/// The names at the indices where `outcomes` holds `wanted`, in order.
pub open spec fn names_with(names: Seq<Seq<char>>, outcomes: Seq<bool>, wanted: bool) -> Seq<
    Seq<char>,
>
    decreases outcomes.len(),
{
    if outcomes.len() == 0 {
        seq![]
    } else {
        let before = names_with(names, outcomes.drop_last(), wanted);
        if outcomes.last() == wanted {
            before.push(names[outcomes.len() - 1])
        } else {
            before
        }
    }
}

/// The message at the end of a bulk run that added `count` components.
pub open spec fn bulk_summary(count: nat) -> Seq<char> {
    "Successfully added "@ + decimal(count) + " Stripe API components"@
}

/// Every component of a finished run is accounted for, under the outcome
/// that was reported for it: a failure takes no other component out of the
/// run.
pub proof fn lemma_every_component_accounted(
    names: Seq<Seq<char>>,
    outcomes: Seq<bool>,
    i: int,
)
    requires
        outcomes.len() <= names.len(),
        0 <= i < outcomes.len(),
    ensures
        names_with(names, outcomes, outcomes[i]).contains(names[i]),
        names_with(names, outcomes, true).len() + names_with(names, outcomes, false).len()
            == outcomes.len(),
    decreases outcomes.len(),
{
    let before = outcomes.drop_last();
    lemma_names_with_len(names, before);
    if i == outcomes.len() - 1 {
        let kept = names_with(names, outcomes, outcomes[i]);
        assert(kept[kept.len() - 1] == names[i]);
    } else {
        lemma_every_component_accounted(names, before, i);
        let earlier = names_with(names, before, outcomes[i]);
        let k = choose|k: int| 0 <= k < earlier.len() && earlier[k] == names[i];
        assert(before[i] == outcomes[i]);
        assert(names_with(names, outcomes, outcomes[i])[k] == names[i]);
    }
}

/// The two lists of a run hold as many names as outcomes were reported.
pub proof fn lemma_names_with_len(names: Seq<Seq<char>>, outcomes: Seq<bool>)
    ensures
        names_with(names, outcomes, true).len() + names_with(names, outcomes, false).len()
            == outcomes.len(),
    decreases outcomes.len(),
{
    if outcomes.len() > 0 {
        lemma_names_with_len(names, outcomes.drop_last());
    }
}

/// The state of a bulk run: the components to add, and how each of those
/// attempted so far ended.
pub struct BulkRun {
    names: Vec<String>,
    outcomes: Vec<bool>,
}

impl BulkRun {
    /// The components of the run, in the order in which they are attempted.
    pub closed spec fn names(&self) -> Seq<Seq<char>> {
        names_of(self.names@)
    }

    /// Whether each component attempted so far was added.
    pub closed spec fn outcomes(&self) -> Seq<bool> {
        self.outcomes@
    }

    /// No more outcomes are noted than the run has components.
    pub open spec fn wf(&self) -> bool {
        self.outcomes().len() <= self.names().len()
    }

    /// Every component has been attempted.
    pub open spec fn finished(&self) -> bool {
        self.outcomes().len() == self.names().len()
    }

    /// A run over `names` in which nothing has been attempted yet.
    pub fn new(names: Vec<String>) -> (run: BulkRun)
        ensures
            run.wf(),
            run.names() == names_of(names@),
            run.outcomes().len() == 0,
    {
        BulkRun { names, outcomes: Vec::new() }
    }

    /// The component to attempt next; none when the run is finished.
    pub fn next_component(&self) -> (next: Option<String>)
        requires
            self.wf(),
        ensures
            self.finished() <==> next is None,
            next matches Some(name) ==> name@ == self.names()[self.outcomes().len() as int],
    {
        if self.outcomes.len() < self.names.len() {
            Some(self.names[self.outcomes.len()].clone())
        } else {
            None
        }
    }

    /// Notes how the component that was due ended. The run moves on to the
    /// component after it whether this one was added or failed.
    pub fn record(&mut self, added: bool)
        requires
            old(self).wf(),
            !old(self).finished(),
        ensures
            final(self).wf(),
            final(self).names() == old(self).names(),
            final(self).outcomes() == old(self).outcomes().push(added),
    {
        self.outcomes.push(added);
    }

    /// The components attempted so far that ended as `wanted` says: those
    /// added for `true`, those that failed for `false`.
    pub fn components_with(&self, wanted: bool) -> (found: Vec<String>)
        requires
            self.wf(),
        ensures
            names_of(found@) == names_with(self.names(), self.outcomes(), wanted),
    {
        let mut found: Vec<String> = Vec::new();
        let mut i: usize = 0;
        proof {
            assert(self.outcomes@.subrange(0, 0) =~= Seq::<bool>::empty());
            assert(names_of(found@) =~= Seq::<Seq<char>>::empty());
        }
        while i < self.outcomes.len()
            invariant
                i <= self.outcomes.len(),
                self.wf(),
                names_of(found@) == names_with(
                    names_of(self.names@),
                    self.outcomes@.subrange(0, i as int),
                    wanted,
                ),
            decreases self.outcomes.len() - i,
        {
            let ghost before = names_of(found@);
            proof {
                let upto = self.outcomes@.subrange(0, i + 1);
                assert(upto.drop_last() =~= self.outcomes@.subrange(0, i as int));
                assert(upto.last() == self.outcomes@[i as int]);
            }
            if self.outcomes[i] == wanted {
                found.push(self.names[i].clone());
                proof {
                    assert(names_of(found@) =~= before.push(self.names@[i as int]@));
                }
            }
            i += 1;
        }
        proof {
            assert(self.outcomes@.subrange(0, self.outcomes@.len() as int) =~= self.outcomes@);
        }
        found
    }

    /// The number of components added so far.
    pub fn added_count(&self) -> (count: usize)
        requires
            self.wf(),
        ensures
            count == names_with(self.names(), self.outcomes(), true).len(),
    {
        let added = self.components_with(true);
        proof {
            assert(names_of(added@).len() == added@.len());
        }
        added.len()
    }

    /// The message that ends the run: it counts the components added.
    pub fn summary(&self) -> (message: String)
        requires
            self.wf(),
        ensures
            message@ == bulk_summary(names_with(self.names(), self.outcomes(), true).len()),
    {
        let digits = string_of(&decimal_chars(self.added_count()));
        let mut message = String::from_str("Successfully added ");
        message.append(digits.as_str());
        message.append(" Stripe API components");
        message
    }
}

} // verus!
