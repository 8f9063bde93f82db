//! The index from command topic to action, read by the dispatcher.
use vstd::prelude::*;

use crate::action::{lemma_topics_follow_slug, Action};
use crate::registrar::{all_of_instance, command_topic_spec, slugs_distinct};

verus! {

/// The registered actions, looked up by command topic.
#[derive(Debug)]
pub struct TopicIndex {
    pub entries: Vec<Action>,
}

/// No two actions of `s` share a command topic.
pub open spec fn topics_distinct(s: Seq<Action>) -> bool {
    forall|i: int, j: int|
        0 <= i < s.len() && 0 <= j < s.len() && i != j ==> command_topic_spec(#[trigger] s[i])
            != command_topic_spec(#[trigger] s[j])
}

/// `r` is what looking up `topic` among `entries` may give: the position of
/// an entry with that command topic, or `None` when no entry has it.
pub open spec fn is_route(entries: Seq<Action>, topic: Seq<char>, r: Option<usize>) -> bool {
    match r {
        Some(k) => k < entries.len() && command_topic_spec(entries[k as int]) == topic,
        None => forall|k: int|
            0 <= k < entries.len() ==> command_topic_spec(#[trigger] entries[k]) != topic,
    }
}

impl TopicIndex {
    /// Each key of the index is the command topic of exactly one entry.
    pub open spec fn wf(&self) -> bool {
        topics_distinct(self.entries@)
    }

    /// The number of entries.
    pub open spec fn spec_len(&self) -> nat {
        self.entries@.len()
    }

    /// The index of a set of actions of one instance with distinct slugs.
    pub fn from_actions(actions: Vec<Action>) -> (r: TopicIndex)
        requires
            exists|instance: Seq<char>| all_of_instance(actions@, instance),
            slugs_distinct(actions@),
        ensures
            r.wf(),
            r.entries@ == actions@,
    {
        let r = TopicIndex { entries: actions };
        proof {
            let instance = choose|instance: Seq<char>| all_of_instance(actions@, instance);
            assert forall|i: int, j: int|
                0 <= i < actions@.len() && 0 <= j < actions@.len() && i != j implies command_topic_spec(
                #[trigger] actions@[i],
            ) != command_topic_spec(#[trigger] actions@[j]) by {
                lemma_topics_follow_slug(instance, actions@[i].name@, actions@[j].name@);
                if i < j {
                    assert(slug_of_name(actions@[i]) != slug_of_name(actions@[j]));
                } else {
                    assert(slug_of_name(actions@[j]) != slug_of_name(actions@[i]));
                }
            }
        }
        r
    }

    /// The number of entries.
    pub fn len(&self) -> (r: usize)
        ensures
            r == self.spec_len(),
    {
        self.entries.len()
    }

    /// The entry at position `i`.
    pub fn get(&self, i: usize) -> (r: &Action)
        requires
            i < self.spec_len(),
        ensures
            *r == self.entries@[i as int],
    {
        &self.entries[i]
    }

    /// The position of the entry whose command topic is `topic`, if any.
    pub fn route(&self, topic: &str) -> (r: Option<usize>)
        ensures
            is_route(self.entries@, topic@, r),
    {
        let wanted = String::from_str(topic);
        let mut i: usize = 0;
        while i < self.entries.len()
            invariant
                i <= self.entries@.len(),
                wanted@ == topic@,
                forall|k: int|
                    0 <= k < i ==> command_topic_spec(#[trigger] self.entries@[k]) != topic@,
            decreases self.entries@.len() - i,
        {
            let t = self.entries[i].command_topic();
            if t == wanted {
                return Some(i);
            }
            i = i + 1;
        }
        None
    }
}

/// The slug of an action's name.
pub open spec fn slug_of_name(a: Action) -> Seq<char> {
    crate::text::slug_of(a.name@)
}

/// Routing is exact: on a well-formed index, a message on the command topic
/// of an entry is routed to that entry and to no other.
pub proof fn lemma_route_exact(index: &TopicIndex, k: int, r: Option<usize>)
    requires
        index.wf(),
        0 <= k < index.spec_len(),
        is_route(index.entries@, command_topic_spec(index.entries@[k]), r),
    ensures
        r == Some(k as usize),
{
    let _ = index.entries@[k];
    if let Some(j) = r {
        let _ = index.entries@[j as int];
    }
}

} // verus!
