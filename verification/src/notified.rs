//! The titles for which a notification has been delivered.

use vstd::prelude::*;

verus! {

/// The set of event titles that have been announced in the current epoch.
/// It grows by insertion and is emptied only when an epoch ends.
#[derive(Debug)]
pub struct NotifiedSet {
    summaries: Vec<String>,
}

/// The titles held in `summaries`, as sequences of characters.
pub open spec fn titles(summaries: Seq<String>) -> Seq<Seq<char>> {
    summaries.map_values(|s: String| s@)
}

/// The set after the delivery of the notification for `summary` has ended:
/// with the title added where it was delivered, unchanged where it failed.
pub open spec fn after_delivery(
    notified: Set<Seq<char>>,
    summary: Seq<char>,
    delivered: bool,
) -> Set<Seq<char>> {
    if delivered {
        notified.insert(summary)
    } else {
        notified
    }
}

impl View for NotifiedSet {
    type V = Set<Seq<char>>;

    closed spec fn view(&self) -> Set<Seq<char>> {
        titles(self.summaries@).to_set()
    }
}

impl NotifiedSet {
    #[verifier::type_invariant]
    spec fn well_formed(self) -> bool {
        titles(self.summaries@).no_duplicates()
    }

    /// The empty set, as it is at the start of an epoch.
    pub fn new() -> (set: NotifiedSet)
        ensures
            set@ == Set::<Seq<char>>::empty(),
    {
        let set = NotifiedSet { summaries: Vec::new() };
        assert(titles(set.summaries@) =~= Seq::<Seq<char>>::empty());
        assert(set@ =~= Set::<Seq<char>>::empty());
        set
    }

    /// Whether `summary` has been announced.
    pub fn contains(&self, summary: &str) -> (found: bool)
        ensures
            found == self@.contains(summary@),
    {
        let wanted = String::from_str(summary);
        let mut i: usize = 0;
        while i < self.summaries.len()
            invariant
                i <= self.summaries.len(),
                wanted@ == summary@,
                forall|j: int| 0 <= j < i ==> titles(self.summaries@)[j] != summary@,
            decreases self.summaries.len() - i,
        {
            if self.summaries[i] == wanted {
                assert(titles(self.summaries@)[i as int] == summary@);
                return true;
            }
            i = i + 1;
        }
        false
    }

    /// Adds `summary` to the set. Returns whether it was new.
    pub fn insert(&mut self, summary: &str) -> (added: bool)
        ensures
            final(self)@ == old(self)@.insert(summary@),
            added == !old(self)@.contains(summary@),
    {
        proof {
            use_type_invariant(&*self);
        }
        if self.contains(summary) {
            assert(self@.insert(summary@) =~= self@);
            return false;
        }
        let ghost before = titles(self.summaries@);
        let mut grown = NotifiedSet { summaries: Vec::new() };
        assert(titles(grown.summaries@) =~= Seq::<Seq<char>>::empty());
        core::mem::swap(self, &mut grown);
        let mut summaries = grown.summaries;
        summaries.push(String::from_str(summary));
        proof {
            let after = titles(summaries@);
            assert(after =~= before.push(summary@));
            assert(after.no_duplicates()) by {
                assert forall|i: int, j: int|
                    0 <= i < after.len() && 0 <= j < after.len() && i != j implies after[i]
                    != after[j] by {
                    if i < before.len() {
                        assert(before.contains(before[i]));
                    }
                    if j < before.len() {
                        assert(before.contains(before[j]));
                    }
                }
            }
            assert(after.to_set() =~= before.to_set().insert(summary@)) by {
                assert(after =~= before + seq![summary@]);
                Seq::lemma_to_set_insert_commutes(before, summary@);
            }
        }
        *self = NotifiedSet { summaries };
        true
    }

    /// Takes note of how the delivery of the notification for `summary`
    /// ended: a delivered notification puts the title into the set, a failed
    /// one leaves the set as it was, so that the event stays eligible.
    pub fn record(&mut self, summary: &str, delivered: bool)
        ensures
            final(self)@ == after_delivery(old(self)@, summary@, delivered),
    {
        if delivered {
            self.insert(summary);
        }
    }

    /// The number of titles in the set.
    pub fn len(&self) -> (count: usize)
        ensures
            count == self@.len(),
            self@.finite(),
    {
        proof {
            use_type_invariant(self);
            titles(self.summaries@).unique_seq_to_set();
        }
        self.summaries.len()
    }

    /// Whether no title has been announced.
    pub fn is_empty(&self) -> (empty: bool)
        ensures
            empty == (self@ == Set::<Seq<char>>::empty()),
    {
        proof {
            if self.summaries@.len() == 0 {
                assert(self@ =~= Set::<Seq<char>>::empty());
            } else {
                assert(titles(self.summaries@)[0] == self.summaries@[0]@);
                assert(self@.contains(self.summaries@[0]@));
            }
        }
        self.summaries.len() == 0
    }

    /// Empties the set: a new epoch begins.
    pub fn clear(&mut self)
        ensures
            final(self)@ == Set::<Seq<char>>::empty(),
    {
        let emptied = NotifiedSet { summaries: Vec::new() };
        assert(titles(emptied.summaries@) =~= Seq::<Seq<char>>::empty());
        *self = emptied;
        assert(self@ =~= Set::<Seq<char>>::empty());
    }
}

} // verus!
