//! The runtimes that wait for a computation to finish.
//!
//! Each of them leaves the sending half of a channel with the computation
//! and blocks on the receiving half. Nothing is proved of what travels
//! through a channel or of what a lock guards: the items marked as trusted
//! here only make the calls, and claim nothing of their results. The
//! functions built on them state which calls they make, and with what.

use crate::runtime::StampedValue;
use parking_lot::Mutex;
use smallvec::SmallVec;
use std::sync::mpsc::{Receiver, Sender};
use vstd::prelude::*;

verus! {

/// The sending half of a channel of std, `std::sync::mpsc::Sender`. Opaque.
#[verifier::external_type_specification]
#[verifier::external_body]
#[verifier::reject_recursive_types(T)]
pub struct ExSender<T>(Sender<T>);

/// The receiving half of a channel of std, `std::sync::mpsc::Receiver`.
/// Opaque.
#[verifier::external_type_specification]
#[verifier::external_body]
#[verifier::reject_recursive_types(T)]
pub struct ExReceiver<T>(Receiver<T>);

/// The mutex of `lock_api`, which `parking_lot::Mutex` is an alias of.
/// Opaque: nothing is said of what it guards.
#[verifier::external_type_specification]
#[verifier::external_body]
#[verifier::reject_recursive_types(R)]
#[verifier::reject_recursive_types(T)]
pub struct ExMutex<R, T: ?Sized>(parking_lot::lock_api::Mutex<R, T>);

/// The raw mutex of `parking_lot`, the first parameter of its `Mutex`.
#[verifier::external_type_specification]
#[verifier::external_body]
pub struct ExRawMutex(parking_lot::RawMutex);

/// The senders of the runtimes that wait for one computation, in a
/// `smallvec::SmallVec` with room for two before it allocates. Opaque:
/// nothing is said of which senders it holds.
#[verifier::external_body]
#[verifier::reject_recursive_types(V)]
pub struct WaitingList<V> {
    senders: SmallVec<[Sender<StampedValue<V>>; 2]>,
}

/// A `parking_lot::MutexGuard` on a waiting list: the list is locked for as
/// long as the guard lives. Opaque.
#[verifier::external_body]
#[verifier::reject_recursive_types(V)]
pub(crate) struct WaitingListGuard<'a, V> {
    guard: parking_lot::MutexGuard<'a, WaitingList<V>>,
}

/// The waiting list of a computation, shared among the runtimes that read
/// the slot while it is in progress.
pub type Waiting<V> = Mutex<WaitingList<V>>;

/// Calls `SmallVec::new`, which makes an empty vector. Nothing is claimed
/// of the result.
#[verifier::external_body]
fn new_waiting_list<V>() -> (list: WaitingList<V>) {
    WaitingList { senders: SmallVec::new() }
}

/// Calls `SmallVec::push`, which appends the sender. Nothing is claimed of
/// the list afterwards.
#[verifier::external_body]
fn push_sender<V>(list: &mut WaitingList<V>, sender: Sender<StampedValue<V>>) {
    list.senders.push(sender)
}

/// Calls `SmallVec::into_vec`, which moves the senders into a `Vec`. It
/// does not unwind. Nothing is claimed of the result.
#[verifier::external_body]
fn into_senders<V>(list: WaitingList<V>) -> (senders: Vec<Sender<StampedValue<V>>>)
    opens_invariants none
    no_unwind
{
    list.senders.into_vec()
}

/// Calls `Mutex::new` of `lock_api`, which puts the list behind a new
/// mutex. Nothing is claimed of the result.
#[verifier::external_body]
fn new_mutex<V>(list: WaitingList<V>) -> (waiting: Waiting<V>) {
    Mutex::new(list)
}

/// Calls `Mutex::lock` of `lock_api`, which blocks until the mutex is free
/// and returns its guard. Nothing is claimed of what is guarded.
#[verifier::external_body]
fn lock_waiting<'a, V>(waiting: &'a Waiting<V>) -> (guard: WaitingListGuard<'a, V>) {
    WaitingListGuard { guard: waiting.lock() }
}

/// Calls `DerefMut::deref_mut` of the mutex guard, which lends out the
/// guarded list. Nothing is claimed of the list.
#[verifier::external_body]
fn guarded_list<'a, 'b, V>(guard: &'b mut WaitingListGuard<'a, V>) -> (list: &'b mut WaitingList<
    V,
>) {
    &mut *guard.guard
}

/// Calls `Mutex::into_inner` of `lock_api`, which consumes the mutex and
/// returns what it guarded. It does not unwind. Nothing is claimed of the
/// result.
#[verifier::external_body]
fn unwrap_mutex<V>(waiting: Waiting<V>) -> (list: WaitingList<V>)
    opens_invariants none
    no_unwind
{
    waiting.into_inner()
}

/// Calls `std::sync::mpsc::channel`, which makes a channel and returns its
/// two halves. Nothing is claimed of them.
#[verifier::external_body]
fn new_channel<T>() -> (halves: (Sender<T>, Receiver<T>)) {
    std::sync::mpsc::channel()
}

/// Calls `Sender::send`, which never blocks, and returns whether the value
/// was taken: it is not if the receiving half is gone. Nothing is claimed of
/// which of the two happens.
#[verifier::external_body]
fn send_value<T>(sender: &Sender<T>, value: T) -> (sent: bool) {
    sender.send(value).is_ok()
}

/// Calls `Receiver::recv`, which blocks until a value arrives and returns
/// it, or returns `None` once every sender is gone and nothing is left to
/// receive. Nothing is claimed of which of the two happens.
#[verifier::external_body]
fn receive_value<T>(receiver: Receiver<T>) -> (value: Option<T>) {
    receiver.recv().ok()
}

/// `waiting` was made as an empty waiting list.
pub closed spec fn is_new_waiting<V>(waiting: Waiting<V>) -> bool {
    exists|list: WaitingList<V>|
        call_ensures(new_waiting_list::<V>, (), list) && #[trigger] call_ensures(
            new_mutex::<V>,
            (list,),
            waiting,
        )
}

/// `receiver` is the receiving half of a new channel whose sending half
/// was put on the list of `waiting`, with the list locked.
pub closed spec fn registers<V>(waiting: &Waiting<V>, receiver: Receiver<StampedValue<V>>) -> bool {
    exists|
        sender: Sender<StampedValue<V>>,
        guard: &mut WaitingListGuard<V>,
        lent: &mut WaitingList<V>,
        list: &mut WaitingList<V>,
    |
        {
            &&& call_ensures(new_channel::<StampedValue<V>>, (), (sender, receiver))
            &&& call_ensures(lock_waiting::<V>, (waiting,), *guard)
            &&& #[trigger] call_ensures(guarded_list::<V>, (guard,), lent)
            &&& *list == *lent
            &&& #[trigger] call_ensures(push_sender::<V>, (list, sender), ())
        }
}

/// `value` is what came out of the channel of `receiver`: the value that
/// was sent, or `None` if every sender went away without sending.
pub closed spec fn receives<V>(
    receiver: Receiver<StampedValue<V>>,
    value: Option<StampedValue<V>>,
) -> bool {
    call_ensures(receive_value::<StampedValue<V>>, (receiver,), value)
}

/// `senders` are the sending halves that `waiting` held when it was taken
/// apart.
pub closed spec fn holds_senders<V>(waiting: Waiting<V>, senders: Seq<Sender<StampedValue<V>>>) -> bool {
    exists|list: WaitingList<V>, taken: Vec<Sender<StampedValue<V>>>|
        call_ensures(unwrap_mutex::<V>, (waiting,), list) && #[trigger] call_ensures(
            into_senders::<V>,
            (list,),
            taken,
        ) && taken@ == senders
}

/// A copy of `value` was sent through `sender`, and `took` says whether
/// the channel took it: it does not if the receiving half is gone.
pub closed spec fn hands<V: Clone>(
    sender: Sender<StampedValue<V>>,
    value: StampedValue<V>,
    took: bool,
) -> bool {
    exists|copy: StampedValue<V>|
        value.copied_to(copy) && #[trigger] call_ensures(
            send_value::<StampedValue<V>>,
            (&sender, copy),
            took,
        )
}

/// How many of `took` are set.
pub open spec fn count_taken(took: Seq<bool>) -> nat
    decreases took.len(),
{
    if took.len() == 0 {
        0
    } else {
        count_taken(took.drop_last()) + if took.last() {
            1nat
        } else {
            0nat
        }
    }
}

/// A copy of `value` was sent to each of the runtimes that waited on
/// `waiting`, in their order, and `taken` of them took it.
pub open spec fn notifies<V: Clone>(waiting: Waiting<V>, value: StampedValue<V>, taken: nat) -> bool {
    exists|senders: Seq<Sender<StampedValue<V>>>, took: Seq<bool>|
        {
            &&& #[trigger] holds_senders(waiting, senders)
            &&& took.len() == senders.len()
            &&& forall|i: int| 0 <= i < senders.len() ==> hands(senders[i], value, #[trigger] took[i])
            &&& taken == #[trigger] count_taken(took)
        }
}

/// An empty waiting list.
pub fn new_waiting<V>() -> (waiting: Waiting<V>)
    ensures
        is_new_waiting(waiting),
{
    new_mutex(new_waiting_list())
}

/// Adds the calling runtime to those that wait. The value, once there is
/// one, arrives at the receiver that is returned.
pub fn register_waiter<V>(waiting: &Waiting<V>) -> (receiver: Receiver<StampedValue<V>>)
    ensures
        registers(waiting, receiver),
{
    let (sender, receiver) = new_channel();
    // Whoever takes the list out needs the lock on the slot, so no
    // particular order has to be kept here.
    let mut guard = lock_waiting(waiting);
    push_sender(guarded_list(&mut guard), sender);
    receiver
}

/// Blocks until the computation that `receiver` was registered with hands
/// out its value. `None` means that the computation was abandoned.
pub fn wait_for_value<V>(receiver: Receiver<StampedValue<V>>) -> (value: Option<StampedValue<V>>)
    ensures
        receives(receiver, value),
{
    receive_value(receiver)
}

/// Hands a copy of `value` to every runtime that waits. Returns how many
/// of them took it.
pub fn notify_waiters<V: Clone>(waiting: Waiting<V>, value: &StampedValue<V>) -> (taken: usize)
    ensures
        notifies(waiting, *value, taken as nat),
{
    let senders = into_senders(unwrap_mutex(waiting));
    assert(holds_senders(waiting, senders@));
    let ghost mut took: Seq<bool> = Seq::empty();
    let mut taken: usize = 0;
    let mut i: usize = 0;
    while i < senders.len()
        invariant
            i <= senders.len(),
            took.len() == i,
            taken == count_taken(took),
            taken <= i,
            forall|j: int| 0 <= j < i ==> hands(senders@[j], *value, #[trigger] took[j]),
        decreases senders.len() - i,
    {
        let sent = send_value(&senders[i], value.copy());
        proof {
            assert(hands(senders@[i as int], *value, sent));
            assert(took.push(sent).drop_last() =~= took);
            took = took.push(sent);
        }
        if sent {
            taken = taken + 1;
        }
        i = i + 1;
    }
    taken
}

/// Lets every runtime that waits know that no value will come: the senders
/// are dropped, which each receiver sees as the end of its channel.
pub fn abandon_waiters<V>(waiting: Waiting<V>)
    ensures
        exists|senders: Seq<Sender<StampedValue<V>>>| #[trigger] holds_senders(waiting, senders),
    opens_invariants none
    no_unwind
{
    let senders = into_senders(unwrap_mutex(waiting));
    assert(holds_senders(waiting, senders@));
}

} // verus!
