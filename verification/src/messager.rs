//! The addressable publish/subscribe bus. Every agent registers one
//! identity and owns one mailbox; peer messages and engine events are merged
//! into the mailbox as one inbound sequence, consumed through a cursor.
//!
//! Delivery preserves each source's own order: a sender's messages land in a
//! recipient's mailbox in send order, and a broadcast appends its events in
//! emission order to every mailbox at once.

use vstd::prelude::*;

use crate::types::AgentId;
use crate::types::Event;
use crate::types::InboundItem;
use crate::types::ItemV;
use crate::types::KernelError;
use crate::types::Message;
use crate::types::To;

verus! {

/// One agent's subscription: its identity, the merged inbound sequence, and
/// the cursor before which every item has been consumed.
pub struct Mailbox {
    /// The identity this mailbox belongs to.
    pub id: AgentId,
    /// The merged inbound sequence, in delivery order.
    pub inbox: Vec<InboundItem>,
    /// How many items of `inbox` the owner has consumed.
    pub cursor: usize,
}

/// The publish/subscribe bus: one mailbox per registered identity.
pub struct Messager {
    /// All mailboxes, in registration order.
    pub boxes: Vec<Mailbox>,
}

/// Two buses with the same identities box for box, the second with every
/// cursor in bounds, are equally well formed.
proof fn lemma_same_ids_wf(a: Messager, b: Messager)
    requires
        a.wf(),
        b.boxes@.len() == a.boxes@.len(),
        forall|k: int|
            0 <= k < a.boxes@.len() ==> #[trigger] b.boxes@[k].id == a.boxes@[k].id,
        forall|k: int|
            0 <= k < b.boxes@.len() ==> #[trigger] b.boxes@[k].cursor <= b.boxes@[k].inbox@.len(),
    ensures
        b.wf(),
        b.ids() == a.ids(),
{
    assert(b.ids() =~= a.ids());
}

impl Messager {
    /// The registered identities, in registration order.
    pub open spec fn ids(self) -> Seq<AgentId> {
        self.boxes@.map_values(|mb: Mailbox| mb.id)
    }

    /// Whether `id` has been registered.
    pub open spec fn registered(self, id: AgentId) -> bool {
        self.ids().contains(id)
    }

    /// The mathematical inbound sequence of the mailbox at position `b`.
    pub open spec fn inbox_of(self, b: int) -> Seq<ItemV> {
        self.boxes@[b].inbox@.map_values(|it: InboundItem| it@)
    }

    /// Well-formed: identities are distinct and every cursor lies within
    /// its inbox.
    pub open spec fn wf(self) -> bool {
        &&& (forall|i: int, j: int|
            0 <= i < j < self.boxes@.len() ==> self.boxes@[i].id != self.boxes@[j].id)
        &&& (forall|i: int|
            0 <= i < self.boxes@.len() ==> #[trigger] self.boxes@[i].cursor
                <= self.boxes@[i].inbox@.len())
    }

    /// An empty bus with no identities.
    pub fn new() -> (r: Messager)
        ensures
            r.boxes@.len() == 0,
            r.wf(),
    {
        Messager { boxes: Vec::new() }
    }

    /// Position of the mailbox registered for `id`, if any.
    fn find_box(&self, id: AgentId) -> (r: Option<usize>)
        ensures
            (r matches Some(b) ==> b < self.boxes@.len() && self.boxes@[b as int].id == id
                && self.registered(id)),
            (r is None ==> !self.registered(id) && (forall|k: int|
                0 <= k < self.boxes@.len() ==> #[trigger] self.boxes@[k].id != id)),
    {
        let mut b: usize = 0;
        while b < self.boxes.len()
            invariant
                b <= self.boxes@.len(),
                forall|i: int| 0 <= i < b ==> #[trigger] self.boxes@[i].id != id,
            decreases self.boxes@.len() - b,
        {
            if self.boxes[b].id == id {
                proof {
                    assert(self.ids()[b as int] == id);
                }
                return Some(b);
            }
            b = b + 1;
        }
        proof {
            assert forall|i: int| 0 <= i < self.ids().len() implies #[trigger] self.ids()[i]
                != id by {
                assert(self.ids()[i] == self.boxes@[i].id);
            }
        }
        None
    }

    /// Allocate an identity and its subscription. Fails with `DuplicateId`,
    /// changing nothing, if and only if the identity is already taken.
    pub fn register(&mut self, id: AgentId) -> (r: Result<(), KernelError>)
        requires
            old(self).wf(),
        ensures
            final(self).wf(),
            (r is Ok <==> !old(self).registered(id)),
            (r matches Err(e) ==> e == KernelError::DuplicateId && *final(self) == *old(self)),
            (r is Ok ==> {
                &&& final(self).boxes@.len() == old(self).boxes@.len() + 1
                &&& (forall|b: int|
                    0 <= b < old(self).boxes@.len() ==> #[trigger] final(self).boxes@[b] == old(
                        self,
                    ).boxes@[b])
                &&& final(self).boxes@.last().id == id
                &&& final(self).boxes@.last().inbox@.len() == 0
                &&& final(self).boxes@.last().cursor == 0
                &&& final(self).registered(id)
            }),
    {
        match self.find_box(id) {
            Some(_) => Err(KernelError::DuplicateId),
            None => {
                let ghost pre = *self;
                let mb = Mailbox { id, inbox: Vec::new(), cursor: 0 };
                self.boxes.push(mb);
                proof {
                    assert(self.ids()[pre.boxes@.len() as int] == id);
                    assert(self.registered(id));
                    assert forall|i: int, j: int|
                        0 <= i < j < self.boxes@.len() implies self.boxes@[i].id
                        != self.boxes@[j].id by {
                        if j == self.boxes@.len() - 1 {
                            assert(self.boxes@[i].id != id);
                        }
                    }
                }
                Ok(())
            },
        }
    }

    /// Deliver a message to its recipient's inbound sequence, or to every
    /// registered agent if addressed to all. An unknown named recipient is
    /// the non-fatal `NoSuchRecipient`; the bus is then unchanged.
    pub fn send(&mut self, msg: Message) -> (r: Result<(), KernelError>)
        requires
            old(self).wf(),
        ensures
            final(self).wf(),
            final(self).ids() == old(self).ids(),
            (msg.to matches To::Agent(rid) ==> {
                &&& (r is Ok <==> old(self).registered(rid))
                &&& (r is Ok ==> (forall|b: int|
                    0 <= b < old(self).boxes@.len() && old(self).boxes@[b].id != rid
                        ==> #[trigger] final(self).boxes@[b] == old(self).boxes@[b]))
                &&& (r is Ok ==> (forall|b: int|
                    0 <= b < old(self).boxes@.len() && old(self).boxes@[b].id == rid ==> {
                        &&& #[trigger] final(self).inbox_of(b) == old(self).inbox_of(b).push(
                            ItemV::Peer(msg@),
                        )
                        &&& final(self).boxes@[b].cursor == old(self).boxes@[b].cursor
                    }))
                &&& (r matches Err(e) ==> e == KernelError::NoSuchRecipient && *final(self)
                    == *old(self))
            }),
            (msg.to is All ==> {
                &&& r is Ok
                &&& (forall|b: int|
                    0 <= b < old(self).boxes@.len() ==> {
                        &&& #[trigger] final(self).inbox_of(b) == old(self).inbox_of(b).push(
                            ItemV::Peer(msg@),
                        )
                        &&& final(self).boxes@[b].cursor == old(self).boxes@[b].cursor
                    })
            }),
    {
        let ghost pre = *self;
        match msg.to {
            To::Agent(rid) => {
                match self.find_box(rid) {
                    None => Err(KernelError::NoSuchRecipient),
                    Some(b) => {
                        let mb = &mut self.boxes[b];
                        mb.inbox.push(InboundItem::Peer(msg));
                        proof {
                            lemma_same_ids_wf(pre, *self);
                            assert forall|k: int|
                                0 <= k < pre.boxes@.len() && pre.boxes@[k].id == rid
                                implies #[trigger] self.inbox_of(k) == pre.inbox_of(k).push(
                                ItemV::Peer(msg@),
                            ) by {
                                assert(k == b as int);
                                assert(self.inbox_of(k) =~= pre.inbox_of(k).push(
                                    ItemV::Peer(msg@),
                                ));
                            }
                        }
                        Ok(())
                    },
                }
            },
            To::All => {
                let mut b: usize = 0;
                while b < self.boxes.len()
                    invariant
                        b <= self.boxes@.len(),
                        self.boxes@.len() == pre.boxes@.len(),
                        forall|k: int|
                            b <= k < pre.boxes@.len() ==> #[trigger] self.boxes@[k]
                                == pre.boxes@[k],
                        forall|k: int|
                            0 <= k < b ==> {
                                &&& #[trigger] self.inbox_of(k) == pre.inbox_of(k).push(
                                    ItemV::Peer(msg@),
                                )
                                &&& self.boxes@[k].cursor == pre.boxes@[k].cursor
                                &&& self.boxes@[k].id == pre.boxes@[k].id
                            },
                    decreases self.boxes@.len() - b,
                {
                    let ghost round = *self;
                    let item = InboundItem::Peer(msg.clone());
                    proof {
                        assert(item@ == ItemV::Peer(msg@));
                    }
                    let mb = &mut self.boxes[b];
                    mb.inbox.push(item);
                    proof {
                        assert(self.inbox_of(b as int) =~= round.inbox_of(b as int).push(
                            ItemV::Peer(msg@),
                        ));
                        assert forall|k: int| 0 <= k < b implies {
                            &&& #[trigger] self.inbox_of(k) == pre.inbox_of(k).push(
                                ItemV::Peer(msg@),
                            )
                            &&& self.boxes@[k].cursor == pre.boxes@[k].cursor
                            &&& self.boxes@[k].id == pre.boxes@[k].id
                        } by {
                            assert(round.inbox_of(k) == pre.inbox_of(k).push(ItemV::Peer(msg@)));
                            assert(self.boxes@[k] == round.boxes@[k]);
                            assert(self.inbox_of(k) =~= round.inbox_of(k));
                        }
                    }
                    b = b + 1;
                }
                proof {
                    assert forall|k: int|
                        0 <= k < pre.boxes@.len() implies #[trigger] self.boxes@[k].id
                        == pre.boxes@[k].id by {
                        assert(self.inbox_of(k) == pre.inbox_of(k).push(ItemV::Peer(msg@)));
                    }
                    assert forall|k: int|
                        0 <= k < self.boxes@.len() implies #[trigger] self.boxes@[k].cursor
                        <= self.boxes@[k].inbox@.len() by {
                        assert(self.inbox_of(k) == pre.inbox_of(k).push(ItemV::Peer(msg@)));
                        assert(self.inbox_of(k).len() == self.boxes@[k].inbox@.len());
                        assert(pre.inbox_of(k).len() == pre.boxes@[k].inbox@.len());
                    }
                    lemma_same_ids_wf(pre, *self);
                }
                Ok(())
            },
        }
    }

    /// Append the given events, in order, to every registered agent's
    /// inbound sequence: the broadcast of one operation's side effects.
    pub fn broadcast(&mut self, events: &Vec<Event>)
        requires
            old(self).wf(),
        ensures
            final(self).wf(),
            final(self).ids() == old(self).ids(),
            final(self).boxes@.len() == old(self).boxes@.len(),
            forall|b: int|
                0 <= b < old(self).boxes@.len() ==> {
                    &&& #[trigger] final(self).inbox_of(b) == old(self).inbox_of(b)
                        + events@.map_values(|e: Event| ItemV::Engine(e))
                    &&& final(self).boxes@[b].cursor == old(self).boxes@[b].cursor
                    &&& final(self).boxes@[b].id == old(self).boxes@[b].id
                },
    {
        let ghost pre = *self;
        let ghost tail = events@.map_values(|e: Event| ItemV::Engine(e));
        let mut b: usize = 0;
        while b < self.boxes.len()
            invariant
                b <= self.boxes@.len(),
                self.boxes@.len() == pre.boxes@.len(),
                tail == events@.map_values(|e: Event| ItemV::Engine(e)),
                forall|k: int|
                    b <= k < pre.boxes@.len() ==> #[trigger] self.boxes@[k] == pre.boxes@[k],
                forall|k: int|
                    0 <= k < b ==> {
                        &&& #[trigger] self.inbox_of(k) == pre.inbox_of(k) + tail
                        &&& self.boxes@[k].cursor == pre.boxes@[k].cursor
                        &&& self.boxes@[k].id == pre.boxes@[k].id
                    },
            decreases self.boxes@.len() - b,
        {
            let ghost round = *self;
            let mut e: usize = 0;
            while e < events.len()
                invariant
                    e <= events@.len(),
                    b < round.boxes@.len(),
                    self.boxes@.len() == round.boxes@.len(),
                    tail == events@.map_values(|ev: Event| ItemV::Engine(ev)),
                    forall|k: int|
                        0 <= k < round.boxes@.len() && k != b ==> #[trigger] self.boxes@[k]
                            == round.boxes@[k],
                    self.inbox_of(b as int) == round.inbox_of(b as int) + tail.take(e as int),
                    self.boxes@[b as int].cursor == round.boxes@[b as int].cursor,
                    self.boxes@[b as int].id == round.boxes@[b as int].id,
                decreases events@.len() - e,
            {
                let ghost mid = *self;
                let item = InboundItem::Engine(events[e]);
                let mb = &mut self.boxes[b];
                mb.inbox.push(item);
                proof {
                    assert(tail[e as int] == ItemV::Engine(events@[e as int]));
                    assert(tail.take(e + 1 as int) =~= tail.take(e as int).push(tail[e as int]));
                    assert(self.inbox_of(b as int) =~= mid.inbox_of(b as int).push(
                        tail[e as int],
                    ));
                    assert(self.inbox_of(b as int) =~= round.inbox_of(b as int) + tail.take(
                        e + 1 as int,
                    ));
                }
                e = e + 1;
            }
            proof {
                assert(tail.take(events@.len() as int) =~= tail);
                assert forall|k: int| 0 <= k < b implies {
                    &&& #[trigger] self.inbox_of(k) == pre.inbox_of(k) + tail
                    &&& self.boxes@[k].cursor == pre.boxes@[k].cursor
                    &&& self.boxes@[k].id == pre.boxes@[k].id
                } by {
                    assert(round.inbox_of(k) == pre.inbox_of(k) + tail);
                    assert(self.boxes@[k] == round.boxes@[k]);
                    assert(self.inbox_of(k) =~= round.inbox_of(k));
                }
                assert(round.boxes@[b as int] == pre.boxes@[b as int]);
                assert(self.inbox_of(b as int) == round.inbox_of(b as int) + tail.take(
                    events@.len() as int,
                ));
                assert(self.inbox_of(b as int) == pre.inbox_of(b as int) + tail);
            }
            b = b + 1;
        }
        proof {
            assert forall|k: int|
                0 <= k < pre.boxes@.len() implies #[trigger] self.boxes@[k].id
                == pre.boxes@[k].id by {
                assert(self.inbox_of(k) == pre.inbox_of(k) + tail);
            }
            assert forall|k: int|
                0 <= k < self.boxes@.len() implies #[trigger] self.boxes@[k].cursor
                <= self.boxes@[k].inbox@.len() by {
                assert(self.inbox_of(k) == pre.inbox_of(k) + tail);
                assert(self.inbox_of(k).len() == self.boxes@[k].inbox@.len());
                assert(pre.inbox_of(k).len() == pre.boxes@[k].inbox@.len());
            }
            lemma_same_ids_wf(pre, *self);
        }
    }

    /// The next unconsumed inbound item of `id`'s mailbox, advancing the
    /// cursor past it; `None` when every delivered item has been consumed
    /// (the stream never self-terminates: the caller suspends instead).
    pub fn next_item(&mut self, id: AgentId) -> (r: Option<InboundItem>)
        requires
            old(self).wf(),
        ensures
            final(self).wf(),
            final(self).ids() == old(self).ids(),
            final(self).boxes@.len() == old(self).boxes@.len(),
            forall|c: int|
                0 <= c < old(self).boxes@.len() ==> #[trigger] final(self).boxes@[c].inbox@
                    == old(self).boxes@[c].inbox@ && final(self).boxes@[c].id
                    == old(self).boxes@[c].id,
            forall|c: int|
                0 <= c < old(self).boxes@.len() && old(self).boxes@[c].id != id
                    ==> final(self).boxes@[c].cursor == #[trigger] (old(self).boxes@[c].cursor),
            (r is None ==> *final(self) == *old(self)),
            (r is None ==> (forall|b: int|
                0 <= b < old(self).boxes@.len() && old(self).boxes@[b].id == id
                    ==> #[trigger] old(self).boxes@[b].cursor >= old(self).boxes@[b].inbox@.len())),
            (r is Some ==> (forall|c: int|
                0 <= c < old(self).boxes@.len() && old(self).boxes@[c].id == id
                    ==> final(self).boxes@[c].cursor == #[trigger] (old(self).boxes@[c].cursor)
                        + 1)),
            (r matches Some(item) ==> exists|b: int|
                {
                    &&& 0 <= b < old(self).boxes@.len()
                    &&& old(self).boxes@[b].id == id
                    &&& old(self).boxes@[b].cursor < old(self).boxes@[b].inbox@.len()
                    &&& item@ == old(self).inbox_of(b)[old(self).boxes@[b].cursor as int]
                    &&& final(self).boxes@ == old(self).boxes@.update(
                        b,
                        Mailbox {
                            id,
                            inbox: old(self).boxes@[b].inbox,
                            cursor: (old(self).boxes@[b].cursor + 1) as usize,
                        },
                    )
                }),
    {
        match self.find_box(id) {
            None => None,
            Some(b) => {
                let ghost pre = *self;
                if self.boxes[b].cursor < self.boxes[b].inbox.len() {
                    let mb = &mut self.boxes[b];
                    let item = mb.inbox[mb.cursor].clone();
                    mb.cursor = mb.cursor + 1;
                    proof {
                        lemma_same_ids_wf(pre, *self);
                        assert(item@ == pre.inbox_of(b as int)[pre.boxes@[b as int].cursor as int]);
                        assert forall|c: int|
                            0 <= c < pre.boxes@.len() && pre.boxes@[c].id != id
                            implies self.boxes@[c].cursor == (pre.boxes@[c].cursor) by {
                            assert(c != b as int);
                        }
                        assert forall|c: int|
                            0 <= c < pre.boxes@.len() && pre.boxes@[c].id == id
                            implies self.boxes@[c].cursor == (pre.boxes@[c].cursor) + 1 by {
                            if c != b as int {
                                assert(pre.boxes@[c].id != pre.boxes@[b as int].id);
                            }
                        }
                        assert(self.boxes@ =~= pre.boxes@.update(
                            b as int,
                            Mailbox {
                                id,
                                inbox: pre.boxes@[b as int].inbox,
                                cursor: (pre.boxes@[b as int].cursor + 1) as usize,
                            },
                        ));
                    }
                    Some(item)
                } else {
                    proof {
                        assert forall|c: int|
                            0 <= c < self.boxes@.len() && self.boxes@[c].id == id
                            implies #[trigger] self.boxes@[c].cursor
                            >= self.boxes@[c].inbox@.len() by {
                            if c != b as int {
                                assert(self.boxes@[c].id != self.boxes@[b as int].id);
                            }
                        }
                    }
                    None
                }
            },
        }
    }

    /// Whether `id` has delivered items it has not yet consumed.
    pub fn has_unconsumed(&self, id: AgentId) -> (r: bool)
        requires
            self.wf(),
        ensures
            r <==> exists|b: int|
                0 <= b < self.boxes@.len() && self.boxes@[b].id == id
                    && #[trigger] self.boxes@[b].cursor < self.boxes@[b].inbox@.len(),
    {
        match self.find_box(id) {
            None => false,
            Some(b) => {
                if self.boxes[b].cursor < self.boxes[b].inbox.len() {
                    true
                } else {
                    proof {
                        assert forall|k: int|
                            0 <= k < self.boxes@.len() && self.boxes@[k].id == id
                                implies !(#[trigger] self.boxes@[k].cursor < self.boxes@[k].inbox@.len()) by {
                            if k != b as int {
                                assert(self.boxes@[k].id != self.boxes@[b as int].id);
                            }
                        }
                    }
                    false
                }
            },
        }
    }
}

/// Law (broadcast completeness): one broadcast delivers to every mailbox
/// exactly the same new items — all the events of the operation, in
/// emission order — so any two recipients observe the events in identical
/// relative order.
pub proof fn lemma_broadcast_uniform(
    m0: Messager,
    m1: Messager,
    events: Seq<Event>,
    b1: int,
    b2: int,
)
    requires
        0 <= b1 < m0.boxes@.len(),
        0 <= b2 < m0.boxes@.len(),
        forall|b: int|
            0 <= b < m0.boxes@.len() ==> #[trigger] m1.inbox_of(b) == m0.inbox_of(b)
                + events.map_values(|e: Event| ItemV::Engine(e)),
    ensures
        m1.inbox_of(b1).skip(m0.inbox_of(b1).len() as int) == events.map_values(
            |e: Event| ItemV::Engine(e),
        ),
        m1.inbox_of(b1).skip(m0.inbox_of(b1).len() as int) == m1.inbox_of(b2).skip(
            m0.inbox_of(b2).len() as int,
        ),
{
    let tail = events.map_values(|e: Event| ItemV::Engine(e));
    assert((m0.inbox_of(b1) + tail).skip(m0.inbox_of(b1).len() as int) =~= tail);
    assert((m0.inbox_of(b2) + tail).skip(m0.inbox_of(b2).len() as int) =~= tail);
}

} // verus!
