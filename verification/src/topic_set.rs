//! The set of tracked topics.

use vstd::prelude::*;

verus! {

/// A set of topic names. No name is held twice.
///
/// The view is the set of the names, each as its sequence of characters.
#[derive(Debug, Clone)]
pub struct TopicSet {
    names: Vec<String>,
}

impl View for TopicSet {
    type V = Set<Seq<char>>;

    closed spec fn view(&self) -> Set<Seq<char>> {
        self.names.deep_view().to_set()
    }
}

impl TopicSet {
    /// No name occurs twice.
    pub closed spec fn wf(&self) -> bool {
        self.names.deep_view().no_duplicates()
    }

    /// The set is finite, as every set of names that is held is.
    pub proof fn lemma_finite(&self)
        ensures
            self@.finite(),
    {
        vstd::seq_lib::seq_to_set_is_finite(self.names.deep_view());
    }

    /// The empty set.
    pub fn new() -> (topics: Self)
        ensures
            topics.wf(),
            topics@ == Set::<Seq<char>>::empty(),
    {
        let topics = TopicSet { names: Vec::new() };
        assert(topics.names.deep_view() =~= Seq::<Seq<char>>::empty());
        assert(topics@ =~= Set::<Seq<char>>::empty());
        topics
    }

    /// Where `topic` stands among the names, if it is there.
    fn position(&self, topic: &str) -> (found: Option<usize>)
        ensures
            match found {
                Some(index) => index < self.names@.len() && self.names.deep_view()[index as int]
                    == topic@,
                None => !self.names.deep_view().contains(topic@),
            },
    {
        let name: String = topic.to_owned();
        let mut index: usize = 0;
        while index < self.names.len()
            invariant
                name@ == topic@,
                index <= self.names@.len(),
                forall|i: int| 0 <= i < index ==> self.names.deep_view()[i] != topic@,
            decreases self.names@.len() - index,
        {
            if self.names[index] == name {
                return Some(index);
            }
            index = index + 1;
        }
        None
    }

    /// Whether `topic` is in the set.
    pub fn contains(&self, topic: &str) -> (found: bool)
        ensures
            found == self@.contains(topic@),
    {
        self.position(topic).is_some()
    }

    /// The number of topics in the set.
    pub fn len(&self) -> (count: usize)
        requires
            self.wf(),
        ensures
            count == self@.len(),
    {
        proof {
            self.names.deep_view().unique_seq_to_set();
        }
        self.names.len()
    }

    /// Whether the set holds no topic.
    pub fn is_empty(&self) -> (empty: bool)
        requires
            self.wf(),
        ensures
            empty == self@.is_empty(),
            empty == (self@.len() == 0),
    {
        proof {
            self.names.deep_view().unique_seq_to_set();
            self.lemma_finite();
            if self@.len() == 0 {
                self@.lemma_len0_is_empty();
            }
        }
        self.names.len() == 0
    }

    /// Put `topic` into the set. Tells whether it was new.
    pub fn insert(&mut self, topic: &str) -> (added: bool)
        requires
            old(self).wf(),
        ensures
            final(self).wf(),
            final(self)@ == old(self)@.insert(topic@),
            added == !old(self)@.contains(topic@),
    {
        match self.position(topic) {
            Some(_) => {
                assert(self@ =~= self@.insert(topic@));
                false
            },
            None => {
                self.names.push(topic.to_owned());
                assert(self.names.deep_view() =~= old(self).names.deep_view().push(topic@));
                assert(self@ =~= old(self)@.insert(topic@)) by {
                    let before = old(self).names.deep_view();
                    let after = self.names.deep_view();
                    assert forall|name: Seq<char>|
                        after.contains(name) <==> before.contains(name) || name == topic@ by {
                        if after.contains(name) {
                            let i = choose|i: int| 0 <= i < after.len() && after[i] == name;
                            if i < before.len() {
                                assert(before[i] == name);
                            }
                        }
                        if before.contains(name) {
                            let i = choose|i: int| 0 <= i < before.len() && before[i] == name;
                            assert(after[i] == name);
                        }
                        if name == topic@ {
                            assert(after[before.len() as int] == name);
                        }
                    }
                }
                true
            },
        }
    }

    /// Take `topic` out of the set. Tells whether it was there.
    pub fn remove(&mut self, topic: &str) -> (removed: bool)
        requires
            old(self).wf(),
        ensures
            final(self).wf(),
            final(self)@ == old(self)@.remove(topic@),
            removed == old(self)@.contains(topic@),
    {
        match self.position(topic) {
            Some(index) => {
                self.names.remove(index);
                let ghost before = old(self).names.deep_view();
                let ghost after = self.names.deep_view();
                assert(after =~= before.remove(index as int));
                assert(self@ =~= old(self)@.remove(topic@)) by {
                    assert forall|name: Seq<char>|
                        after.contains(name) <==> before.contains(name) && name != topic@ by {
                        if after.contains(name) {
                            let i = choose|i: int| 0 <= i < after.len() && after[i] == name;
                            if i < index {
                                assert(before[i] == name);
                            } else {
                                assert(before[i + 1] == name);
                            }
                        }
                        if before.contains(name) && name != topic@ {
                            let i = choose|i: int| 0 <= i < before.len() && before[i] == name;
                            if i < index {
                                assert(after[i] == name);
                            } else {
                                assert(after[i - 1] == name);
                            }
                        }
                    }
                }
                true
            },
            None => {
                assert(self@ =~= self@.remove(topic@));
                false
            },
        }
    }

    /// A copy of the names in the set, each once.
    pub fn to_vec(&self) -> (names: Vec<String>)
        requires
            self.wf(),
        ensures
            names.deep_view().no_duplicates(),
            names.deep_view().to_set() == self@,
            names@.len() == self@.len(),
    {
        let mut names: Vec<String> = Vec::new();
        let mut index: usize = 0;
        while index < self.names.len()
            invariant
                index <= self.names@.len(),
                names@.len() == index,
                forall|i: int| 0 <= i < index ==> names.deep_view()[i] == self.names.deep_view()[i],
            decreases self.names@.len() - index,
        {
            let ghost copied = names.deep_view();
            let name: String = self.names[index].clone();
            names.push(name);
            assert(names.deep_view() =~= copied.push(self.names.deep_view()[index as int]));
            index = index + 1;
        }
        assert(names.deep_view() =~= self.names.deep_view());
        proof {
            self.names.deep_view().unique_seq_to_set();
        }
        names
    }
}

} // verus!
