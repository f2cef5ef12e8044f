//! What background work hands over: messages on channels, stamped with the time they are taken.

use std::sync::mpsc::Receiver;
use std::time::Instant;
use vstd::prelude::*;

verus! {

/// The receiving end of a standard channel, carried as an opaque handle.
#[verifier::external_type_specification]
#[verifier::external_body]
#[verifier::reject_recursive_types(T)]
pub struct ExReceiver<T>(std::sync::mpsc::Receiver<T>);

/// A moment of the standard monotonic clock, carried as an opaque value.
#[verifier::external_type_specification]
#[verifier::external_body]
pub struct ExInstant(std::time::Instant);

/// `std::time::Instant::now`: the present moment, of which nothing is claimed.
pub assume_specification[ std::time::Instant::now ]() -> (now: Instant);

/// What one look at a channel finds.
pub enum Received<T> {
    /// A message.
    Message(T),
    /// Nothing for now.
    Empty,
    /// Nothing, and every sender is gone.
    Disconnected,
}

/// `std::sync::mpsc::Receiver::try_recv`: takes the next message off `rx` where one is waiting, and
/// hands `rx` back. Which of the three comes back depends on the sending threads, so nothing is
/// claimed of it. Nor is it claimed that the handle is the same value as before: a look may have
/// taken something off the channel.
#[verifier::external_body]
fn receive<T>(rx: Receiver<T>) -> (answer: (Received<T>, Receiver<T>)) {
    let found = match rx.try_recv() {
        Ok(message) => Received::Message(message),
        Err(std::sync::mpsc::TryRecvError::Empty) => Received::Empty,
        Err(std::sync::mpsc::TryRecvError::Disconnected) => Received::Disconnected,
    };
    (found, rx)
}

/// One look at a channel: the handle before it, what it found, the handle after it.
#[verifier::reject_recursive_types(T)]
pub struct LookV<T> {
    pub before: Receiver<T>,
    pub found: Received<T>,
    pub after: Receiver<T>,
}

/// Whether `look` is one look at a channel, made and answered.
pub closed spec fn answered<T>(look: LookV<T>) -> bool {
    call_ensures(receive::<T>, (look.before,), (look.found, look.after))
}

/// Whether `looks` are looks at the channel behind `rx`, each at the handle that the one before it
/// left: between two of them nothing was taken off the channel.
pub open spec fn unbroken<T>(rx: Receiver<T>, looks: Seq<LookV<T>>) -> bool {
    &&& looks.len() > 0 ==> looks[0].before == rx
    &&& forall|i: int| 0 <= i < looks.len() ==> answered(#[trigger] looks[i])
    &&& forall|i: int, j: int|
        0 <= i && j == i + 1 && j < looks.len() ==> (#[trigger] looks[j]).before == (
        #[trigger] looks[i]).after
}

/// Looks at `rx` by way of `look`.
fn look_with<T, F: Fn(Receiver<T>) -> (Received<T>, Receiver<T>)>(look: F, rx: Receiver<T>) -> (
answer: (Received<T>, Receiver<T>))
    requires
        call_requires(look, (rx,)),
    ensures
        call_ensures(look, (rx,), answer),
{
    look(rx)
}

/// Looks at `rx` once. The handle comes back with what was found.
pub(crate) fn ask<T>(rx: Receiver<T>) -> (answer: (Received<T>, Receiver<T>))
    ensures
        answered((LookV { before: rx, found: answer.0, after: answer.1 })),
{
    look_with(receive::<T>, rx)
}

} // verus!
