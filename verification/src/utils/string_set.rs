//! Sets of strings.

use vstd::prelude::*;

use crate::utils::text::contains_str;

verus! {

/// A set of strings. No string is held twice.
#[derive(Debug, PartialEq)]
pub struct StringSet {
    items: Vec<String>,
}

impl View for StringSet {
    type V = Set<Seq<char>>;

    closed spec fn view(&self) -> Set<Seq<char>> {
        self.items.deep_view().to_set()
    }
}

impl DeepView for StringSet {
    type V = Set<Seq<char>>;

    open spec fn deep_view(&self) -> Set<Seq<char>> {
        self@
    }
}

impl Clone for StringSet {
    fn clone(&self) -> (copy: Self)
        ensures
            copy.deep_view() == self.deep_view(),
    {
        let items = self.items.clone();
        assert(items.deep_view() =~~= self.items.deep_view());
        proof {
            use_type_invariant(self);
        }
        StringSet { items }
    }
}

impl StringSet {
    #[verifier::type_invariant]
    spec fn items_are_distinct(self) -> bool {
        self.items.deep_view().no_duplicates()
    }

    /// Create an empty set.
    pub fn new() -> (set: Self)
        ensures
            set@ == Set::<Seq<char>>::empty(),
    {
        let set = StringSet { items: Vec::new() };
        assert(set@ =~= Set::<Seq<char>>::empty());
        set
    }

    /// Is the text in the set?
    pub fn contains(&self, text: &str) -> (found: bool)
        ensures
            found == self@.contains(text@),
    {
        contains_str(&self.items, text)
    }

    /// Add a text to the set.
    pub fn insert(&mut self, text: String)
        ensures
            final(self)@ == old(self)@.insert(text@),
    {
        proof {
            use_type_invariant(&*self);
        }
        let ghost before = self.items.deep_view();
        if !contains_str(&self.items, text.as_str()) {
            let mut items: Vec<String> = Vec::new();
            std::mem::swap(&mut items, &mut self.items);
            items.push(text);
            proof {
                let after = items.deep_view();
                assert(after =~= before.push(text@));
                assert forall|x: Seq<char>| after.contains(x) == (before.contains(x) || x
                    == text@) by {
                    if before.contains(x) {
                        let i = before.index_of(x);
                        assert(after[i] == x);
                    }
                    assert(after[before.len() as int] == text@);
                }
                assert(after.to_set() =~= before.to_set().insert(text@));
            }
            self.items = items;
        } else {
            assert(before.to_set() =~= before.to_set().insert(text@));
        }
    }

    /// The members of the set.
    pub fn to_vec(&self) -> (items: Vec<String>)
        ensures
            items.deep_view().no_duplicates(),
            items.deep_view().to_set() == self@,
    {
        proof {
            use_type_invariant(self);
        }
        let items = self.items.clone();
        assert(items.deep_view() =~~= self.items.deep_view());
        items
    }
}

} // verus!
