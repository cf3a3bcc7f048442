//! The history store: for each conversation identifier, the turns exchanged so far.

use crate::message::{ChatMessage, ChatMessageView};
use vstd::hash_map::StringHashMap;
use vstd::prelude::*;

verus! {

/// The turns of every conversation, keyed by the conversation's identifier.
///
/// A conversation nobody has written to holds no turns: the store does not
/// tell an identifier it never saw from one whose turns were all taken back.
pub struct MessagesHistory {
    messages_by_id: StringHashMap<Vec<ChatMessage>>,
}

impl View for MessagesHistory {
    type V = Map<Seq<char>, Seq<ChatMessageView>>;

    /// The turns of each conversation, in the order they were appended. The
    /// map is total: an identifier without turns maps to the empty sequence.
    closed spec fn view(&self) -> Map<Seq<char>, Seq<ChatMessageView>> {
        Map::total(|id: Seq<char>| Self::turns(self.messages_by_id@, id))
    }
}

impl MessagesHistory {
    spec fn turns(stored: Map<Seq<char>, Vec<ChatMessage>>, id: Seq<char>) -> Seq<
        ChatMessageView,
    > {
        if stored.contains_key(id) {
            stored[id].deep_view()
        } else {
            Seq::empty()
        }
    }

    /// A conversation's turns once the most recent one is taken back: all but
    /// the last, and nothing where there was nothing.
    pub open spec fn without_last(turns: Seq<ChatMessageView>) -> Seq<ChatMessageView> {
        if turns.len() > 0 {
            turns.drop_last()
        } else {
            turns
        }
    }

    /// The history in which no conversation has a turn.
    pub open spec fn empty() -> Map<Seq<char>, Seq<ChatMessageView>> {
        Map::total(|id: Seq<char>| Seq::empty())
    }

    /// Every identifier has an entry in the view.
    pub proof fn lemma_view_total(&self)
        ensures
            forall|id: Seq<char>| self@.dom().contains(id),
    {
    }

    /// A store without any turn.
    pub fn new() -> (r: Self)
        ensures
            r@ == Self::empty(),
    {
        let r = MessagesHistory { messages_by_id: StringHashMap::new() };
        assert(r@ =~= Self::empty());
        r
    }

    /// Adds `message` after the turns of conversation `id`. Other
    /// conversations keep their turns.
    pub fn append(&mut self, id: &str, message: ChatMessage)
        ensures
            final(self)@ == old(self)@.insert(id@, old(self)@[id@].push(message@)),
    {
        let mut turns = self.snapshot(id);
        let ghost before = turns.deep_view();
        turns.push(message);
        assert(turns.deep_view() =~= before.push(message@));
        self.messages_by_id.insert(id.to_owned(), turns);
        assert(self@ =~= old(self)@.insert(id@, old(self)@[id@].push(message@)));
    }

    /// Takes back the most recent turn of conversation `id`. Where the
    /// conversation has no turn, nothing changes.
    pub fn rollback_last(&mut self, id: &str)
        ensures
            final(self)@ == old(self)@.insert(id@, Self::without_last(old(self)@[id@])),
            old(self)@[id@].len() == 0 ==> final(self)@ == old(self)@,
    {
        let mut turns = self.snapshot(id);
        let ghost before = turns.deep_view();
        if turns.len() > 0 {
            turns.pop();
            assert(turns.deep_view() =~= before.drop_last());
            self.messages_by_id.insert(id.to_owned(), turns);
        }
        assert(self@ =~= old(self)@.insert(id@, Self::without_last(old(self)@[id@])));
        assert(old(self)@[id@].len() == 0 ==> self@ =~= old(self)@);
    }

    /// A copy of the turns of conversation `id`, oldest first; empty where
    /// the conversation has none. Changing the copy leaves the store alone.
    pub fn snapshot(&self, id: &str) -> (r: Vec<ChatMessage>)
        ensures
            r.deep_view() == self@[id@],
    {
        match self.messages_by_id.get(id) {
            Some(turns) => {
                let copy = turns.clone();
                assert(copy.deep_view() =~= turns.deep_view());
                copy
            },
            None => {
                let r: Vec<ChatMessage> = Vec::new();
                assert(r.deep_view() =~= Seq::empty());
                r
            },
        }
    }
}

} // verus!
