//! Bounded first-in-first-out mailboxes, one per account.

use crate::account::{Account, AccountView, ChatMessage, ChatMessageView};
use std::collections::VecDeque;
use vstd::prelude::*;

verus! {

/// The default bound on the length of a mailbox.
pub const MAX_Q_SIZE: usize = 1000;

/// A queue after `item` arrives under the bound `cap`: the item goes to the
/// back, and if the queue is then longer than `cap` its oldest item leaves.
pub open spec fn bounded_push<T>(queue: Seq<T>, item: T, cap: nat) -> Seq<T> {
    let pushed = queue.push(item);
    if pushed.len() > cap {
        pushed.subrange(1, pushed.len() as int)
    } else {
        pushed
    }
}

/// A queue after the arrivals `items`, from left to right, under the bound `cap`.
pub open spec fn bounded_push_all<T>(queue: Seq<T>, items: Seq<T>, cap: nat) -> Seq<T>
    decreases items.len(),
{
    if items.len() == 0 {
        queue
    } else {
        bounded_push(bounded_push_all(queue, items.drop_last(), cap), items.last(), cap)
    }
}

/// The last `n` items of `items` in their order, or all of them if there are fewer.
pub open spec fn latest<T>(items: Seq<T>, n: nat) -> Seq<T> {
    if items.len() <= n {
        items
    } else {
        items.subrange(items.len() - n, items.len() as int)
    }
}

/// The queue filed under `key`: empty where the key has none yet.
pub open spec fn queue_at(
    store: Map<AccountView, Seq<ChatMessageView>>,
    key: AccountView,
) -> Seq<ChatMessageView> {
    if store.contains_key(key) {
        store[key]
    } else {
        Seq::empty()
    }
}

/// The mailboxes after `msg` is filed under `key` with the bound `cap`.
pub open spec fn enqueue_spec(
    store: Map<AccountView, Seq<ChatMessageView>>,
    key: AccountView,
    msg: ChatMessageView,
    cap: nat,
) -> Map<AccountView, Seq<ChatMessageView>> {
    store.insert(key, bounded_push(queue_at(store, key), msg, cap))
}

/// The messages of a queue as mathematical values, oldest first.
pub open spec fn messages_view(queue: Seq<ChatMessage>) -> Seq<ChatMessageView> {
    Seq::new(queue.len(), |i: int| queue[i]@)
}

/// A single arrival never leaves a queue longer than the bound, provided
/// the queue respected the bound before.
pub proof fn lemma_bounded_push_len<T>(queue: Seq<T>, item: T, cap: nat)
    requires
        queue.len() <= cap,
    ensures
        bounded_push(queue, item, cap).len() <= cap,
        bounded_push(queue, item, cap) == latest(queue.push(item), cap),
{
    assert(bounded_push(queue, item, cap) =~= latest(queue.push(item), cap));
}

/// However many messages arrive, a mailbox that respected the bound keeps
/// exactly the `cap` most recent of everything it ever held, in arrival
/// order, and so never holds more than `cap`.
pub proof fn lemma_mailbox_keeps_latest<T>(queue: Seq<T>, items: Seq<T>, cap: nat)
    requires
        queue.len() <= cap,
    ensures
        bounded_push_all(queue, items, cap) == latest(queue + items, cap),
        bounded_push_all(queue, items, cap).len() <= cap,
    decreases items.len(),
{
    if items.len() == 0 {
        assert(queue + items =~= queue);
    } else {
        let before = items.drop_last();
        lemma_mailbox_keeps_latest(queue, before, cap);
        assert((queue + before).push(items.last()) =~= queue + items);
        assert(bounded_push(latest(queue + before, cap), items.last(), cap) =~= latest(
            queue + items,
            cap,
        ));
    }
}

/// The mailboxes after the messages `msgs` are filed under `key`, from
/// left to right, with the bound `cap`.
pub open spec fn enqueue_all_spec(
    store: Map<AccountView, Seq<ChatMessageView>>,
    key: AccountView,
    msgs: Seq<ChatMessageView>,
    cap: nat,
) -> Map<AccountView, Seq<ChatMessageView>>
    decreases msgs.len(),
{
    if msgs.len() == 0 {
        store
    } else {
        enqueue_spec(enqueue_all_spec(store, key, msgs.drop_last(), cap), key, msgs.last(), cap)
    }
}

/// After any run of enqueues under one key, that mailbox holds exactly the
/// `cap` most recent of its earlier content followed by the new messages,
/// in arrival order, and so no more than `cap`; no other mailbox changes.
pub proof fn lemma_enqueue_all_keeps_latest(
    store: Map<AccountView, Seq<ChatMessageView>>,
    key: AccountView,
    msgs: Seq<ChatMessageView>,
    cap: nat,
)
    requires
        queue_at(store, key).len() <= cap,
    ensures
        queue_at(enqueue_all_spec(store, key, msgs, cap), key) == latest(
            queue_at(store, key) + msgs,
            cap,
        ),
        queue_at(enqueue_all_spec(store, key, msgs, cap), key).len() <= cap,
        forall|other: AccountView|
            other != key ==> queue_at(enqueue_all_spec(store, key, msgs, cap), other) == queue_at(
                store,
                other,
            ),
    decreases msgs.len(),
{
    lemma_mailbox_keeps_latest(queue_at(store, key), msgs, cap);
    if msgs.len() > 0 {
        lemma_enqueue_all_keeps_latest(store, key, msgs.drop_last(), cap);
        lemma_mailbox_keeps_latest(queue_at(store, key), msgs.drop_last(), cap);
    }
}

/// One account's mailbox.
struct Mailbox {
    key: Account,
    queue: VecDeque<ChatMessage>,
}

/// The mailboxes of one chat instance: for each account that has received
/// anything, its messages, oldest first, never more than the bound.
pub struct MailboxStore {
    boxes: Vec<Mailbox>,
    capacity: usize,
}

impl View for MailboxStore {
    type V = Map<AccountView, Seq<ChatMessageView>>;

    closed spec fn view(&self) -> Map<AccountView, Seq<ChatMessageView>> {
        Map::new(
            |k: AccountView| self.has_slot(k),
            |k: AccountView| messages_view(self.boxes@[self.slot_of(k)].queue@),
        )
    }
}

impl MailboxStore {
    spec fn has_slot(&self, key: AccountView) -> bool {
        exists|i: int| 0 <= i < self.boxes@.len() && #[trigger] self.boxes@[i].key@ == key
    }

    spec fn slot_of(&self, key: AccountView) -> int {
        choose|i: int| 0 <= i < self.boxes@.len() && #[trigger] self.boxes@[i].key@ == key
    }

    /// Every account has at most one mailbox.
    pub closed spec fn keys_distinct(&self) -> bool {
        forall|i: int, j: int|
            0 <= i < j < self.boxes@.len() ==> #[trigger] self.boxes@[i].key@
                != #[trigger] self.boxes@[j].key@
    }

    /// The bound on the length of each mailbox.
    pub closed spec fn bound(&self) -> nat {
        self.capacity as nat
    }

    /// Every account has at most one mailbox, and none is over the bound.
    pub open spec fn wf(&self) -> bool {
        &&& self.keys_distinct()
        &&& forall|k: AccountView|
            self@.contains_key(k) ==> (#[trigger] self@[k]).len() <= self.bound()
    }

    proof fn lemma_slot(&self, i: int)
        requires
            self.keys_distinct(),
            0 <= i < self.boxes@.len(),
        ensures
            self.has_slot(self.boxes@[i].key@),
            self.slot_of(self.boxes@[i].key@) == i,
            self@.contains_key(self.boxes@[i].key@),
            self@[self.boxes@[i].key@] == messages_view(self.boxes@[i].queue@),
    {
        let k = self.boxes@[i].key@;
        let j = self.slot_of(k);
        assert(0 <= j < self.boxes@.len() && self.boxes@[j].key@ == k);
        if j < i {
            assert(self.boxes@[j].key@ != self.boxes@[i].key@);
        } else if i < j {
            assert(self.boxes@[i].key@ != self.boxes@[j].key@);
        }
    }

    /// No mailboxes yet, each to be bounded by `capacity`.
    pub fn new(capacity: usize) -> (res: MailboxStore)
        ensures
            res.wf(),
            res.bound() == capacity,
            res@ == Map::<AccountView, Seq<ChatMessageView>>::empty(),
    {
        let res = MailboxStore { boxes: Vec::new(), capacity };
        assert(res@ =~= Map::<AccountView, Seq<ChatMessageView>>::empty());
        res
    }

    /// The bound on the length of each mailbox.
    pub fn capacity(&self) -> (res: usize)
        ensures
            res == self.bound(),
    {
        self.capacity
    }

    fn find(&self, key: &Account) -> (res: Option<usize>)
        ensures
            match res {
                Some(i) => i < self.boxes@.len() && self.boxes@[i as int].key@ == key@,
                None => !self.has_slot(key@),
            },
    {
        let mut i: usize = 0;
        while i < self.boxes.len()
            invariant
                i <= self.boxes@.len(),
                forall|j: int| 0 <= j < i ==> self.boxes@[j].key@ != key@,
            decreases self.boxes@.len() - i,
        {
            if key.same_identity(&self.boxes[i].key) {
                return Some(i);
            }
            i += 1;
        }
        None
    }

    /// Whether anything was ever filed under `key`.
    pub fn has_mailbox(&self, key: &Account) -> (res: bool)
        ensures
            res == self@.contains_key(key@),
    {
        self.find(key).is_some()
    }

    /// Files `msg` under `key`, opening the mailbox if need be. If the
    /// mailbox is then over the bound, its oldest message is dropped.
    pub fn enqueue(&mut self, key: &Account, msg: ChatMessage)
        requires
            old(self).wf(),
        ensures
            final(self).wf(),
            final(self).bound() == old(self).bound(),
            final(self)@ == enqueue_spec(old(self)@, key@, msg@, old(self).bound()),
    {
        let cap = self.capacity;
        let index = match self.find(key) {
            Some(i) => i,
            None => {
                let fresh = Mailbox { key: key.clone(), queue: VecDeque::new() };
                self.boxes.push(fresh);
                self.boxes.len() - 1
            },
        };
        let ghost mid = *self;
        let ghost before = messages_view(self.boxes@[index as int].queue@);
        proof {
            assert(mid.keys_distinct());
            mid.lemma_slot(index as int);
            assert(before =~= queue_at(old(self)@, key@)) by {
                if old(self).has_slot(key@) {
                    old(self).lemma_slot(index as int);
                }
            }
            lemma_bounded_push_len(before, msg@, cap as nat);
        }
        let slot = &mut self.boxes[index];
        slot.queue.push_back(msg);
        if slot.queue.len() > cap {
            slot.queue.pop_front();
        }
        proof {
            assert(self.boxes@.len() == mid.boxes@.len());
            assert(forall|j: int|
                0 <= j < self.boxes@.len() ==> #[trigger] self.boxes@[j].key@ == mid.boxes@[j].key@);
            assert(self.keys_distinct());
            assert(messages_view(self.boxes@[index as int].queue@) =~= bounded_push(
                before,
                msg@,
                cap as nat,
            ));
            let target = enqueue_spec(old(self)@, key@, msg@, cap as nat);
            assert forall|k: AccountView| #[trigger]
                target.dom().contains(k) implies self@.dom().contains(k) && self@[k]
                == target[k] by {
                if k == key@ {
                    self.lemma_slot(index as int);
                } else {
                    let j = old(self).slot_of(k);
                    old(self).lemma_slot(j);
                    assert(self.boxes@[j] == old(self).boxes@[j]);
                    self.lemma_slot(j);
                }
            }
            assert forall|k: AccountView| #[trigger]
                self@.dom().contains(k) implies target.dom().contains(k) by {
                let j = self.slot_of(k);
                if j != index {
                    assert(old(self).boxes@[j].key@ == k);
                }
            }
            assert(self@.dom() =~= target.dom());
            assert(self@ =~= target);
        }
    }

    /// The messages filed under `key`, oldest first; none if the account
    /// has no mailbox.
    pub fn read(&self, key: &Account) -> (res: Vec<ChatMessage>)
        requires
            self.wf(),
        ensures
            messages_view(res@) == queue_at(self@, key@),
    {
        let mut out: Vec<ChatMessage> = Vec::new();
        match self.find(key) {
            Some(index) => {
                proof {
                    self.lemma_slot(index as int);
                }
                let queue = &self.boxes[index].queue;
                let mut i: usize = 0;
                while i < queue.len()
                    invariant
                        i <= queue@.len(),
                        out@.len() == i,
                        forall|j: int| 0 <= j < i ==> out@[j]@ == queue@[j]@,
                    decreases queue@.len() - i,
                {
                    out.push(queue[i].clone());
                    i += 1;
                }
                assert(messages_view(out@) =~= messages_view(queue@));
            },
            None => {
                assert(messages_view(out@) =~= Seq::<ChatMessageView>::empty());
            },
        }
        out
    }
}

} // verus!
