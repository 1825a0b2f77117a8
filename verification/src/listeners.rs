//! Subscriptions to config changes, and the diff that feeds them.
//!
//! A `ListenerSet` holds listeners under subscription handles. A listener is
//! anything that implements `Listener`; what it has received so far is part
//! of its specification, so that delivery can be stated exactly.

pub mod config;

use crate::common::{GroupKey, GroupKeyView};
use vstd::prelude::*;

verus! {

/// Receives config payloads.
pub trait Listener {
    type Incoming;

    /// Everything that this listener has received, oldest first.
    spec fn received(&self) -> Seq<Self::Incoming>;

    /// The listener has taken `payload`: what it does with a payload has
    /// been done with this one.
    spec fn handed(&self, payload: Self::Incoming) -> bool;

    /// Receives one payload.
    fn receive_config_info(&mut self, config_info: Self::Incoming)
        ensures
            final(self).received() == old(self).received().push(config_info),
            final(self).handed(config_info),
    ;
}

/// Is told when the connection to the server comes and goes.
pub trait ConnectionEventListener {
    /// Called when the client has connected to a server.
    fn on_connected(&self);

    /// Called when the client has lost its server.
    fn on_disconnect(&self);
}

/// A listener that keeps what it receives.
pub struct Recorder<T> {
    items: Vec<T>,
}

impl<T> Recorder<T> {
    /// A recorder that has received nothing.
    pub fn new() -> (r: Self)
        ensures
            r.received() == Seq::<T>::empty(),
    {
        Recorder { items: Vec::new() }
    }

    /// The payloads received so far, oldest first.
    pub fn items(&self) -> (v: &Vec<T>)
        ensures
            v@ == self.received(),
    {
        &self.items
    }
}

impl<T> Listener for Recorder<T> {
    type Incoming = T;

    closed spec fn received(&self) -> Seq<T> {
        self.items@
    }

    /// A recorder has taken a payload when it keeps it.
    closed spec fn handed(&self, payload: T) -> bool {
        self.items@.contains(payload)
    }

    fn receive_config_info(&mut self, config_info: T) {
        self.items.push(config_info);
        proof {
            assert(self.items@[self.items@.len() - 1] == config_info);
        }
    }
}

/// A listener that hands every payload to a function.
pub struct Callback<T, F: Fn(T)> {
    call: F,
    log: Ghost<Seq<T>>,
}

impl<T, F: Fn(T)> Callback<T, F> {
    /// The function takes every payload.
    #[verifier::type_invariant]
    spec fn callable(&self) -> bool {
        forall|v: T| call_requires(self.call, (v,))
    }

    /// The function that the listener hands its payloads to.
    pub closed spec fn function(&self) -> F {
        self.call
    }

    /// A listener around `call`, which must take every payload.
    pub fn new(call: F) -> (c: Self)
        requires
            forall|v: T| call_requires(call, (v,)),
        ensures
            c.received() == Seq::<T>::empty(),
            c.function() == call,
    {
        Callback { call, log: Ghost(Seq::empty()) }
    }
}

impl<T, F: Fn(T)> Listener for Callback<T, F> {
    type Incoming = T;

    closed spec fn received(&self) -> Seq<T> {
        self.log@
    }

    /// The function was called with the payload and has returned.
    open spec fn handed(&self, payload: T) -> bool {
        call_ensures(self.function(), (payload,), ())
    }

    /// Calls the function with the payload, once, and notes the payload as
    /// received.
    fn receive_config_info(&mut self, config_info: T)
        ensures
            final(self).function() == old(self).function(),
    {
        proof {
            use_type_invariant(&*self);
            self.log@ = self.log@.push(config_info);
        }
        (self.call)(config_info);
    }
}

/// The handle of one registration: the key it was made under, and a number
/// that no other registration of the same set has.
#[derive(Debug, Eq, PartialEq, Hash)]
pub struct Subscription {
    key: GroupKey,
    id: u64,
}

/// A `Subscription` as plain values.
pub struct SubscriptionView {
    pub key: GroupKeyView,
    pub id: u64,
}

impl View for Subscription {
    type V = SubscriptionView;

    closed spec fn view(&self) -> SubscriptionView {
        SubscriptionView { key: self.key@, id: self.id }
    }
}

impl Clone for Subscription {
    fn clone(&self) -> (s: Self)
        ensures
            s@ == self@,
    {
        Subscription { key: self.key.clone(), id: self.id }
    }
}

impl Subscription {
    fn new(group_key: GroupKey, id: u64) -> (s: Self)
        ensures
            s@ == (SubscriptionView { key: group_key@, id }),
    {
        Subscription { key: group_key, id }
    }

    /// The key that the subscription was made under.
    pub fn group_key(&self) -> (k: &GroupKey)
        ensures
            k@ == self@.key,
    {
        &self.key
    }

    /// Whether two handles stand for the same registration.
    pub fn same_as(&self, other: &Subscription) -> (r: bool)
        ensures
            r == (self@ == other@),
    {
        self.id == other.id && self.key.same_as(&other.key)
    }
}

struct Registration<L> {
    subscription: Subscription,
    listener: L,
}

/// The listeners of a client, each under its subscription handle.
pub struct ListenerSet<L> {
    entries: Vec<Registration<L>>,
    next_id: u64,
}

/// One registration as the contracts see it: the handle and the listener.
pub struct Registered<L> {
    pub subscription: SubscriptionView,
    pub listener: L,
}

/// The registrations without the one under `handle`.
pub open spec fn without<L>(regs: Seq<Registered<L>>, handle: SubscriptionView) -> Seq<
    Registered<L>,
> {
    regs.filter(|r: Registered<L>| r.subscription != handle)
}

/// `after` is `before` with one more payload, a clone of `payload`.
pub open spec fn delivered<T: Clone>(before: Seq<T>, after: Seq<T>, payload: T) -> bool {
    &&& after.len() == before.len() + 1
    &&& after.drop_last() == before
    &&& cloned(payload, after.last())
}

/// Every listener of `before` is in `after` at the same place, under the same
/// handle, has received one clone of `payload` more and has taken that
/// clone; there are no others.
pub open spec fn notified<L: Listener>(
    before: Seq<Registered<L>>,
    after: Seq<Registered<L>>,
    payload: L::Incoming,
) -> bool where L::Incoming: Clone {
    &&& after.len() == before.len()
    &&& forall|i: int|
        0 <= i < before.len() ==> (#[trigger] after[i]).subscription == before[i].subscription
            && delivered(before[i].listener.received(), after[i].listener.received(), payload)
            && after[i].listener.handed(after[i].listener.received().last())
}

impl<L> ListenerSet<L> {
    /// The registrations, oldest first.
    pub closed spec fn registrations(&self) -> Seq<Registered<L>> {
        Seq::new(
            self.entries@.len(),
            |i: int|
                Registered {
                    subscription: self.entries@[i].subscription@,
                    listener: self.entries@[i].listener,
                },
        )
    }

    /// The number that the next registration gets.
    pub closed spec fn next_id(&self) -> u64 {
        self.next_id
    }

    /// Every handle in the set has a number below the next one, and no two
    /// registrations share a number.
    pub open spec fn handles_are_distinct(&self) -> bool {
        &&& forall|i: int|
            0 <= i < self.registrations().len() ==> (#[trigger] self.registrations()[i]).subscription.id
                < self.next_id()
        &&& forall|i: int, j: int|
            0 <= i < j < self.registrations().len() ==> (#[trigger] self.registrations()[i]).subscription.id
                != (#[trigger] self.registrations()[j]).subscription.id
    }

    #[verifier::type_invariant]
    spec fn well_formed(&self) -> bool {
        self.handles_are_distinct()
    }
}

/// Nothing is removed where no registration is under `handle`.
pub proof fn lemma_without_absent<L>(regs: Seq<Registered<L>>, handle: SubscriptionView)
    requires
        forall|k: int| 0 <= k < regs.len() ==> (#[trigger] regs[k]).subscription != handle,
    ensures
        without(regs, handle) == regs,
    decreases regs.len(),
{
    reveal(Seq::filter);
    if regs.len() > 0 {
        let front = regs.drop_last();
        assert forall|k: int| 0 <= k < front.len() implies (#[trigger] front[k]).subscription
            != handle by {
            assert(front[k] == regs[k]);
        }
        lemma_without_absent(front, handle);
        assert(front.push(regs.last()) == regs);
    }
}

/// Where exactly the registration at `i` is under `handle`, that one is removed.
pub proof fn lemma_without_present<L>(regs: Seq<Registered<L>>, handle: SubscriptionView, i: int)
    requires
        0 <= i < regs.len(),
        regs[i].subscription == handle,
        forall|k: int|
            0 <= k < regs.len() && k != i ==> (#[trigger] regs[k]).subscription != handle,
    ensures
        without(regs, handle) == regs.remove(i),
    decreases regs.len(),
{
    reveal(Seq::filter);
    let front = regs.drop_last();
    if i == regs.len() - 1 {
        assert forall|k: int| 0 <= k < front.len() implies (#[trigger] front[k]).subscription
            != handle by {
            assert(front[k] == regs[k]);
        }
        lemma_without_absent(front, handle);
        assert(regs.remove(i) == front);
    } else {
        assert(front[i] == regs[i]);
        assert forall|k: int| 0 <= k < front.len() && k != i implies (
        #[trigger] front[k]).subscription != handle by {
            assert(front[k] == regs[k]);
        }
        lemma_without_present(front, handle, i);
        assert(regs.last().subscription != handle) by {
            assert(regs[regs.len() - 1].subscription != handle);
        }
        assert(front.remove(i).push(regs.last()) == regs.remove(i));
    }
}

impl<L> ListenerSet<L> {
    /// A set without registrations.
    pub fn new() -> (s: Self)
        ensures
            s.registrations() == Seq::<Registered<L>>::empty(),
            s.next_id() == 0,
    {
        let s = ListenerSet { entries: Vec::new(), next_id: 0 };
        assert(s.registrations() =~= Seq::<Registered<L>>::empty());
        s
    }

    /// The number of registrations.
    pub fn len(&self) -> (n: usize)
        ensures
            n == self.registrations().len(),
            self.handles_are_distinct(),
    {
        proof {
            use_type_invariant(self);
        }
        self.entries.len()
    }

    /// Whether the set can take one more registration: a handle is left.
    pub fn has_room(&self) -> (r: bool)
        ensures
            r == (self.next_id() < u64::MAX),
    {
        self.next_id < u64::MAX
    }

    /// The listener that is registered under `subscription`.
    pub fn listener(&self, subscription: &Subscription) -> (r: Option<&L>)
        ensures
            match r {
                Some(l) => exists|i: int|
                    0 <= i < self.registrations().len() && (
                    #[trigger] self.registrations()[i]).subscription == subscription@
                        && self.registrations()[i].listener == *l,
                None => forall|i: int|
                    0 <= i < self.registrations().len() ==> (
                    #[trigger] self.registrations()[i]).subscription != subscription@,
            },
    {
        let mut i: usize = 0;
        while i < self.entries.len()
            invariant
                i <= self.entries.len(),
                forall|k: int|
                    0 <= k < i ==> (#[trigger] self.registrations()[k]).subscription
                        != subscription@,
            decreases self.entries.len() - i,
        {
            if self.entries[i].subscription.same_as(subscription) {
                proof {
                    assert(self.registrations()[i as int].subscription == subscription@);
                }
                return Some(&self.entries[i].listener);
            }
            i = i + 1;
        }
        None
    }

    /// Registers `listener` under `group_key` and returns the handle of the
    /// registration. The handle is new: no registration of the set has it.
    pub fn subscribe(&mut self, group_key: GroupKey, listener: L) -> (subscription: Subscription)
        requires
            old(self).next_id() < u64::MAX,
        ensures
            subscription@ == (SubscriptionView { key: group_key@, id: old(self).next_id() }),
            final(self).next_id() == old(self).next_id() + 1,
            final(self).registrations() == old(self).registrations().push(
                Registered { subscription: subscription@, listener },
            ),
            forall|i: int|
                0 <= i < old(self).registrations().len() ==> (
                #[trigger] old(self).registrations()[i]).subscription != subscription@,
    {
        proof {
            use_type_invariant(&*self);
        }
        let ghost before = self.registrations();
        let mut taken = ListenerSet { entries: Vec::new(), next_id: 0 };
        proof {
            assert(taken.registrations() =~= Seq::<Registered<L>>::empty());
        }
        core::mem::swap(self, &mut taken);
        let mut entries = taken.entries;
        let id = taken.next_id;
        let subscription = Subscription::new(group_key, id);
        let handle = subscription.clone();
        entries.push(Registration { subscription, listener });
        proof {
            let after = ListenerSet { entries, next_id: (id + 1) as u64 };
            assert(after.registrations() =~= before.push(
                Registered { subscription: handle@, listener },
            ));
            assert forall|i: int, j: int| 0 <= i < j < after.registrations().len() implies (
            #[trigger] after.registrations()[i]).subscription.id != (
            #[trigger] after.registrations()[j]).subscription.id by {
                if j < before.len() {
                    assert(before[i].subscription.id != before[j].subscription.id);
                } else {
                    assert(before[i].subscription.id < id);
                }
            }
            assert forall|i: int| 0 <= i < after.registrations().len() implies (
            #[trigger] after.registrations()[i]).subscription.id < after.next_id() by {
                if i < before.len() {
                    assert(before[i].subscription.id < id);
                }
            }
        }
        *self = ListenerSet { entries, next_id: id + 1 };
        handle
    }

    /// Removes the registration under `subscription`. A handle that the set
    /// does not hold removes nothing.
    pub fn unsubscribe(&mut self, subscription: Subscription)
        ensures
            final(self).registrations() == without(old(self).registrations(), subscription@),
            final(self).next_id() == old(self).next_id(),
            forall|i: int|
                0 <= i < final(self).registrations().len() ==> (
                #[trigger] final(self).registrations()[i]).subscription != subscription@,
            final(self).registrations().len() == (if exists|i: int|
                0 <= i < old(self).registrations().len() && (
                #[trigger] old(self).registrations()[i]).subscription == subscription@ {
                old(self).registrations().len() - 1
            } else {
                old(self).registrations().len() as int
            }),
    {
        proof {
            use_type_invariant(&*self);
        }
        let ghost before = self.registrations();
        proof {
            assert forall|i: int| 0 <= i < without(before, subscription@).len() implies (
            #[trigger] without(before, subscription@)[i]).subscription != subscription@ by {
                before.lemma_filter_pred(
                    |r: Registered<L>| r.subscription != subscription@,
                    i,
                );
            }
        }
        let mut i: usize = 0;
        while i < self.entries.len() && !self.entries[i].subscription.same_as(&subscription)
            invariant
                i <= self.entries.len(),
                before == self.registrations(),
                forall|k: int| 0 <= k < i ==> (#[trigger] before[k]).subscription != subscription@,
            decreases self.entries.len() - i,
        {
            proof {
                assert(before[i as int].subscription == self.entries@[i as int].subscription@);
            }
            i = i + 1;
        }
        if i >= self.entries.len() {
            proof {
                lemma_without_absent(before, subscription@);
            }
            return;
        }
        let mut taken = ListenerSet { entries: Vec::new(), next_id: 0 };
        proof {
            assert(taken.registrations() =~= Seq::<Registered<L>>::empty());
        }
        core::mem::swap(self, &mut taken);
        let mut entries = taken.entries;
        let next_id = taken.next_id;
        let removed = entries.remove(i);
        proof {
            assert(before[i as int].subscription == subscription@);
            assert forall|k: int| 0 <= k < before.len() && k != i implies (
            #[trigger] before[k]).subscription != subscription@ by {
                if k < i {
                    assert(before[k].subscription.id != before[i as int].subscription.id);
                } else {
                    assert(before[i as int].subscription.id != before[k].subscription.id);
                }
            }
            lemma_without_present(before, subscription@, i as int);
            let after = ListenerSet { entries, next_id };
            assert(after.registrations() =~= before.remove(i as int));
            assert forall|a: int, b: int| 0 <= a < b < after.registrations().len() implies (
            #[trigger] after.registrations()[a]).subscription.id != (
            #[trigger] after.registrations()[b]).subscription.id by {
                let a0 = if a < i { a } else { a + 1 };
                let b0 = if b < i { b } else { b + 1 };
                assert(before[a0].subscription.id != before[b0].subscription.id);
            }
            assert forall|a: int| 0 <= a < after.registrations().len() implies (
            #[trigger] after.registrations()[a]).subscription.id < after.next_id() by {
                let a0 = if a < i { a } else { a + 1 };
                assert(before[a0].subscription.id < next_id);
            }
        }
        *self = ListenerSet { entries, next_id };
    }
}

impl<L: Listener> ListenerSet<L> where L::Incoming: Clone {
    /// Hands a clone of `payload` to every registered listener, once, oldest
    /// registration first.
    pub fn notify(&mut self, payload: &L::Incoming)
        ensures
            notified(old(self).registrations(), final(self).registrations(), *payload),
            final(self).next_id() == old(self).next_id(),
    {
        proof {
            use_type_invariant(&*self);
        }
        let ghost before = self.registrations();
        let mut taken = ListenerSet { entries: Vec::new(), next_id: 0 };
        proof {
            assert(taken.registrations() =~= Seq::<Registered<L>>::empty());
        }
        core::mem::swap(self, &mut taken);
        let mut entries = taken.entries;
        let next_id = taken.next_id;
        let ghost start = entries@;
        let mut i: usize = 0;
        while i < entries.len()
            invariant
                i <= entries.len(),
                entries@.len() == start.len(),
                forall|k: int|
                    0 <= k < i ==> (#[trigger] entries@[k]).subscription == start[k].subscription
                        && delivered(
                        start[k].listener.received(),
                        entries@[k].listener.received(),
                        *payload,
                    ) && entries@[k].listener.handed(entries@[k].listener.received().last()),
                forall|k: int| i <= k < entries.len() ==> #[trigger] entries@[k] == start[k],
            decreases entries.len() - i,
        {
            let copy = payload.clone();
            let ghost prior = entries@;
            entries[i].listener.receive_config_info(copy);
            proof {
                let r0 = start[i as int].listener.received();
                let r1 = entries@[i as int].listener.received();
                assert(prior[i as int] == start[i as int]);
                assert(r1 == r0.push(copy));
                assert(r1.drop_last() =~= r0);
                assert(r1.last() == copy);
            }
            i = i + 1;
        }
        proof {
            let after = ListenerSet { entries, next_id };
            assert forall|k: int| 0 <= k < before.len() implies (
            #[trigger] after.registrations()[k]).subscription == before[k].subscription
                && delivered(
                before[k].listener.received(),
                after.registrations()[k].listener.received(),
                *payload,
            ) && after.registrations()[k].listener.handed(
                after.registrations()[k].listener.received().last(),
            ) by {
                assert(entries@[k].subscription == start[k].subscription);
            }
            assert forall|a: int, b: int| 0 <= a < b < after.registrations().len() implies (
            #[trigger] after.registrations()[a]).subscription.id != (
            #[trigger] after.registrations()[b]).subscription.id by {
                assert(entries@[a].subscription == start[a].subscription);
                assert(entries@[b].subscription == start[b].subscription);
                assert(before[a].subscription.id != before[b].subscription.id);
            }
            assert forall|a: int| 0 <= a < after.registrations().len() implies (
            #[trigger] after.registrations()[a]).subscription.id < after.next_id() by {
                assert(entries@[a].subscription == start[a].subscription);
                assert(before[a].subscription.id < next_id);
            }
        }
        *self = ListenerSet { entries, next_id };
    }
}

/// A listener that was subscribed is handed the next payload exactly once:
/// after the notification it stands under its handle, has received one
/// clone of the payload more than before, and has taken that clone.
pub proof fn law_subscribed_listener_is_notified_once<L: Listener>(
    regs: Seq<Registered<L>>,
    handle: SubscriptionView,
    listener: L,
    after: Seq<Registered<L>>,
    payload: L::Incoming,
) where L::Incoming: Clone
    requires
        notified(regs.push(Registered { subscription: handle, listener }), after, payload),
    ensures
        after.len() == regs.len() + 1,
        after.last().subscription == handle,
        delivered(listener.received(), after.last().listener.received(), payload),
        after.last().listener.handed(after.last().listener.received().last()),
{
    let before = regs.push(Registered { subscription: handle, listener });
    assert(after[regs.len() as int].subscription == before[regs.len() as int].subscription);
}

/// After a handle was unsubscribed, no registration is under it, so that a
/// later notification reaches no listener under it.
pub proof fn law_unsubscribed_listener_is_not_notified<L: Listener>(
    regs: Seq<Registered<L>>,
    handle: SubscriptionView,
    after: Seq<Registered<L>>,
    payload: L::Incoming,
) where L::Incoming: Clone
    requires
        notified(without(regs, handle), after, payload),
    ensures
        forall|i: int| 0 <= i < after.len() ==> (#[trigger] after[i]).subscription != handle,
{
    let kept = without(regs, handle);
    assert forall|i: int| 0 <= i < after.len() implies (#[trigger] after[i]).subscription
        != handle by {
        regs.lemma_filter_pred(|r: Registered<L>| r.subscription != handle, i);
        assert(after[i].subscription == kept[i].subscription);
    }
}

/// Two registrations under one key are two registrations: one notification
/// reaches both listeners.
pub proof fn law_subscriptions_of_one_key_both_fire<L: Listener>(
    regs: Seq<Registered<L>>,
    first: Registered<L>,
    second: Registered<L>,
    after: Seq<Registered<L>>,
    payload: L::Incoming,
) where L::Incoming: Clone
    requires
        first.subscription.key == second.subscription.key,
        notified(regs.push(first).push(second), after, payload),
    ensures
        after.len() == regs.len() + 2,
        delivered(
            first.listener.received(),
            after[regs.len() as int].listener.received(),
            payload,
        ),
        delivered(
            second.listener.received(),
            after[regs.len() as int + 1].listener.received(),
            payload,
        ),
        after[regs.len() as int].listener.handed(
            after[regs.len() as int].listener.received().last(),
        ),
        after[regs.len() as int + 1].listener.handed(
            after[regs.len() as int + 1].listener.received().last(),
        ),
{
    let before = regs.push(first).push(second);
    assert(after[regs.len() as int].subscription == before[regs.len() as int].subscription);
    assert(after[regs.len() as int + 1].subscription == before[regs.len() as int + 1].subscription);
}

} // verus!
