//! The participants of a chat room and the announcements of their coming and
//! going.

use vstd::prelude::*;
use vstd::string::*;
use crate::session::{chat_text, join_text, leave_text};
use crate::user::same_text;

verus! {

/// A participant joining or leaving, by display name.
pub enum RoomEvent {
    Join(Seq<char>),
    Leave(Seq<char>),
}

/// The participants after one event.
pub open spec fn apply(members: Set<Seq<char>>, event: RoomEvent) -> Set<Seq<char>> {
    match event {
        RoomEvent::Join(name) => members.insert(name),
        RoomEvent::Leave(name) => members.remove(name),
    }
}

/// The announcement that an event is published with.
pub open spec fn announcement(event: RoomEvent) -> Seq<char> {
    match event {
        RoomEvent::Join(name) => join_text(name),
        RoomEvent::Leave(name) => leave_text(name),
    }
}

/// The participants of a room that started empty and saw `events`.
pub open spec fn replay(events: Seq<RoomEvent>) -> Set<Seq<char>>
    decreases events.len(),
{
    if events.len() == 0 {
        Set::empty()
    } else {
        apply(replay(events.drop_last()), events.last())
    }
}

/// How many of the events are joins.
pub open spec fn joins(events: Seq<RoomEvent>) -> nat
    decreases events.len(),
{
    if events.len() == 0 {
        0
    } else if events.last() is Join {
        joins(events.drop_last()) + 1
    } else {
        joins(events.drop_last())
    }
}

/// How many of the events are leaves.
pub open spec fn leaves(events: Seq<RoomEvent>) -> nat
    decreases events.len(),
{
    if events.len() == 0 {
        0
    } else if events.last() is Leave {
        leaves(events.drop_last()) + 1
    } else {
        leaves(events.drop_last())
    }
}

/// The announcements that the group saw, one for each event, in order.
pub open spec fn announcements(events: Seq<RoomEvent>) -> Seq<Seq<char>> {
    events.map_values(|e: RoomEvent| announcement(e))
}

/// Whether every join is of somebody absent and every leave of somebody
/// present: each user is attached through one connection at a time.
pub open spec fn orderly(events: Seq<RoomEvent>) -> bool
    decreases events.len(),
{
    if events.len() == 0 {
        true
    } else {
        &&& orderly(events.drop_last())
        &&& match events.last() {
            RoomEvent::Join(name) => !replay(events.drop_last()).contains(name),
            RoomEvent::Leave(name) => replay(events.drop_last()).contains(name),
        }
    }
}

/// Every event is a join or a leave.
pub proof fn lemma_joins_and_leaves_cover(events: Seq<RoomEvent>)
    ensures
        joins(events) + leaves(events) == events.len(),
    decreases events.len(),
{
    if events.len() > 0 {
        lemma_joins_and_leaves_cover(events.drop_last());
    }
}

/// In an orderly history the participants are those who joined and have not
/// left: their number is the joins less the leaves.
pub proof fn lemma_room_balance(events: Seq<RoomEvent>)
    requires
        orderly(events),
    ensures
        replay(events).finite(),
        replay(events).len() + leaves(events) == joins(events),
    decreases events.len(),
{
    if events.len() > 0 {
        lemma_room_balance(events.drop_last());
    }
}

/// After as many leaves as joins an orderly room is empty, and the group saw
/// one announcement for each join and one for each leave.
pub proof fn lemma_all_joined_all_left(events: Seq<RoomEvent>, n: nat)
    requires
        orderly(events),
        joins(events) == n,
        leaves(events) == n,
    ensures
        replay(events) == Set::<Seq<char>>::empty(),
        announcements(events).len() == 2 * n,
{
    lemma_room_balance(events);
    lemma_joins_and_leaves_cover(events);
    assert(replay(events).len() == 0);
    assert(replay(events) =~= Set::<Seq<char>>::empty());
}

/// The display names of the connections attached to the broadcast group.
#[derive(Debug)]
pub struct Room {
    names: Vec<String>,
}

impl View for Room {
    type V = Set<Seq<char>>;

    closed spec fn view(&self) -> Set<Seq<char>> {
        Set::new(|n: Seq<char>| exists|i: int| 0 <= i < self.names@.len() && #[trigger] self.names@[i]@ == n)
    }
}

impl Room {
    /// No name is kept twice.
    pub closed spec fn wf(&self) -> bool {
        forall|i: int, j: int|
            0 <= i < j < self.names@.len() ==> #[trigger] self.names@[i]@ != #[trigger] self.names@[j]@
    }

    /// An empty room.
    pub fn new() -> (r: Self)
        ensures
            r.wf(),
            r@ == Set::<Seq<char>>::empty(),
    {
        let r = Room { names: Vec::new() };
        assert(r@ =~= Set::<Seq<char>>::empty());
        r
    }

    fn position(&self, name: &str) -> (r: Option<usize>)
        ensures
            r matches Some(i) ==> i < self.names@.len() && self.names@[i as int]@ == name@,
            r is None ==> forall|i: int| 0 <= i < self.names@.len() ==> self.names@[i]@ != name@,
    {
        let mut i: usize = 0;
        while i < self.names.len()
            invariant
                i <= self.names@.len(),
                forall|j: int| 0 <= j < i ==> self.names@[j]@ != name@,
            decreases self.names@.len() - i,
        {
            if same_text(self.names[i].as_str(), name) {
                return Some(i);
            }
            i += 1;
        }
        None
    }

    /// Whether a participant of that name is attached.
    pub fn contains(&self, name: &str) -> (r: bool)
        ensures
            r == self@.contains(name@),
    {
        self.position(name).is_some()
    }

    /// Whether nobody is attached.
    pub fn is_empty(&self) -> (r: bool)
        ensures
            r == (self@ == Set::<Seq<char>>::empty()),
    {
        let r = self.names.len() == 0;
        proof {
            if r {
                assert(self@ =~= Set::<Seq<char>>::empty());
            } else {
                assert(self@.contains(self.names@[0]@));
            }
        }
        r
    }

    /// Adds a participant and gives the announcement to publish.
    pub fn join(&mut self, name: &str) -> (r: String)
        requires
            old(self).wf(),
        ensures
            final(self).wf(),
            final(self)@ == apply(old(self)@, RoomEvent::Join(name@)),
            r@ == announcement(RoomEvent::Join(name@)),
    {
        if self.position(name).is_none() {
            let ghost before = self.names@;
            self.names.push(String::from_str(name));
            proof {
                assert forall|n: Seq<char>| self@.contains(n) <==> old(self)@.insert(name@).contains(
                    n,
                ) by {
                    if old(self)@.contains(n) {
                        let i = choose|i: int| 0 <= i < before.len() && #[trigger] before[i]@ == n;
                        assert(self.names@[i]@ == n);
                    }
                    if n == name@ {
                        assert(self.names@[before.len() as int]@ == n);
                    }
                }
                assert(self@ =~= old(self)@.insert(name@));
            }
        } else {
            proof {
                assert(self@ =~= old(self)@.insert(name@));
            }
        }
        String::from_str(name).concat(" joined")
    }

    /// Takes a participant out and gives the announcement to publish.
    pub fn leave(&mut self, name: &str) -> (r: String)
        requires
            old(self).wf(),
        ensures
            final(self).wf(),
            final(self)@ == apply(old(self)@, RoomEvent::Leave(name@)),
            r@ == announcement(RoomEvent::Leave(name@)),
    {
        match self.position(name) {
            Some(at) => {
                let ghost before = self.names@;
                self.names.remove(at);
                proof {
                    assert forall|n: Seq<char>| self@.contains(n) <==> old(self)@.remove(
                        name@,
                    ).contains(n) by {
                        if self@.contains(n) {
                            let i = choose|i: int|
                                0 <= i < self.names@.len() && #[trigger] self.names@[i]@ == n;
                            if i < at {
                                assert(before[i]@ == n);
                            } else {
                                assert(before[i + 1]@ == n);
                            }
                        }
                        if old(self)@.contains(n) && n != name@ {
                            let i = choose|i: int| 0 <= i < before.len() && #[trigger] before[i]@ == n;
                            if i < at {
                                assert(self.names@[i]@ == n);
                            } else {
                                assert(self.names@[i - 1]@ == n);
                            }
                        }
                    }
                    assert(self@ =~= old(self)@.remove(name@));
                }
            },
            None => {
                proof {
                    assert(self@ =~= old(self)@.remove(name@));
                }
            },
        }
        String::from_str(name).concat(" left")
    }

    /// The line that the group sees when `name` says `text`.
    pub fn chat_line(name: &str, text: &str) -> (r: String)
        ensures
            r@ == chat_text(name@, text@),
    {
        String::from_str(name).concat(": ").concat(text)
    }
}

} // verus!
