use vstd::prelude::*;

use rand::Rng;
use std::sync::mpsc::{Receiver, Sender};

use crate::error::NetworkError;

verus! {

#[verifier::external_type_specification]
#[verifier::external_body]
#[verifier::reject_recursive_types(T)]
pub struct ExSender<T>(Sender<T>);

#[verifier::external_type_specification]
#[verifier::external_body]
#[verifier::reject_recursive_types(T)]
pub struct ExReceiver<T>(Receiver<T>);

/// An ASCII letter or digit.
pub open spec fn is_alphanumeric(c: char) -> bool {
    ('0' <= c && c <= '9') || ('A' <= c && c <= 'Z') || ('a' <= c && c <= 'z')
}

/// Relies on rand's `Alphanumeric` distribution, sampled from the thread-local
/// generator: it draws one of `A-Z`, `a-z`, `0-9`.
#[verifier::external_body]
fn random_alphanumeric() -> (c: char)
    ensures
        is_alphanumeric(c),
{
    rand::thread_rng().sample(rand::distributions::Alphanumeric)
}

/// Relies on `String::push`: it appends the character.
#[verifier::external_body]
fn push_char(s: &mut String, c: char)
    ensures
        final(s)@ == old(s)@.push(c),
{
    s.push(c)
}

/// A random string of `len` ASCII letters and digits.
pub fn random_string(len: usize) -> (r: String)
    ensures
        r@.len() == len,
        forall|i: int| 0 <= i < len ==> is_alphanumeric(#[trigger] r@[i]),
{
    let mut r = String::new();
    let mut i: usize = 0;
    while i < len
        invariant
            0 <= i <= len,
            r@.len() == i,
            forall|j: int| 0 <= j < i ==> is_alphanumeric(#[trigger] r@[j]),
        decreases len - i,
    {
        let c = random_alphanumeric();
        push_char(&mut r, c);
        i = i + 1;
    }
    r
}

/// The ASCII code of a letter or a digit.
pub open spec fn is_alphanumeric_byte(b: u8) -> bool {
    (48 <= b && b <= 57) || (65 <= b && b <= 90) || (97 <= b && b <= 122)
}

/// Random bytes, each the ASCII code of a letter or a digit.
pub fn random_bytes(len: usize) -> (r: Vec<u8>)
    ensures
        r@.len() == len,
        forall|i: int| 0 <= i < len ==> is_alphanumeric_byte(#[trigger] r@[i]),
{
    let mut r: Vec<u8> = Vec::with_capacity(len);
    let mut i: usize = 0;
    while i < len
        invariant
            0 <= i <= len,
            r@.len() == i,
            forall|j: int| 0 <= j < i ==> is_alphanumeric_byte(#[trigger] r@[j]),
        decreases len - i,
    {
        let c = random_alphanumeric();
        let code: u32 = c as u32;
        let b: u8 = code as u8;
        proof {
            assert(is_alphanumeric_byte(b));
        }
        r.push(b);
        i = i + 1;
    }
    r
}

/// One side of a bidirectional channel: a sender for what goes out and a
/// receiver for what comes in.
pub trait Query: Sized {
    type Left;

    type Right;

    spec fn left(&self) -> Self::Left;

    spec fn right(&self) -> Self::Right;

    /// Pairs an existing sender and receiver.
    fn create(sender: Self::Left, receiver: Self::Right) -> (r: Self)
        ensures
            r.left() == sender,
            r.right() == receiver,
    ;

    /// Splits the pairing into its sender and receiver.
    fn into_split(self) -> (r: (Self::Left, Self::Right))
        ensures
            r.0 == self.left(),
            r.1 == self.right(),
    ;
}

/// Relies on `std::sync::mpsc::channel`: a fresh unbounded channel.
#[verifier::external_body]
fn std_channel<T>() -> (Sender<T>, Receiver<T>) {
    std::sync::mpsc::channel()
}

/// Relies on `std::sync::mpsc::Sender::send`: it fails only when the
/// receiving half is gone, and then hands back the error's message.
#[verifier::external_body]
fn std_send<T>(s: &Sender<T>, t: T) -> Result<(), String> {
    match s.send(t) {
        Ok(()) => Ok(()),
        Err(e) => Err(format!("{}", e)),
    }
}

/// Relies on `std::sync::mpsc::Receiver::recv`: it blocks for the next
/// value, and fails only when every sender is gone.
#[verifier::external_body]
fn std_recv<T>(r: &Receiver<T>) -> Result<T, String> {
    match r.recv() {
        Ok(t) => Ok(t),
        Err(e) => Err(format!("{}", e)),
    }
}

/// Two query ends joined crosswise: what one sends, the other receives.
pub fn sync_channel<R, S>() -> (r: (SyncQuery<R, S>, SyncQuery<S, R>)) {
    let (l_sender, l_receiver) = std_channel::<R>();
    let (r_sender, r_receiver) = std_channel::<S>();
    (
        SyncQuery { sender: l_sender, receiver: r_receiver },
        SyncQuery { sender: r_sender, receiver: l_receiver },
    )
}

/// A query end over thread-safe blocking channels.
#[derive(Debug)]
#[verifier::reject_recursive_types(S)]
#[verifier::reject_recursive_types(R)]
pub struct SyncQuery<S, R> {
    sender: Sender<S>,
    receiver: Receiver<R>,
}

impl<S, R> SyncQuery<S, R> {
    /// Sends `data`; a closed channel is a `SyncSendError`.
    pub fn send(&mut self, data: S) -> (r: Result<(), NetworkError>)
        ensures
            r is Ok || r matches Err(NetworkError::SyncSendError(_)),
            final(self).left() == old(self).left(),
            final(self).right() == old(self).right(),
    {
        match std_send(&self.sender, data) {
            Ok(()) => Ok(()),
            Err(msg) => Err(NetworkError::SyncSendError(msg)),
        }
    }

    /// Waits for the next value; a closed channel is a `SyncRecvError`.
    pub fn recv(&mut self) -> (r: Result<R, NetworkError>)
        ensures
            r is Ok || r matches Err(NetworkError::SyncRecvError(_)),
            final(self).left() == old(self).left(),
            final(self).right() == old(self).right(),
    {
        match std_recv(&self.receiver) {
            Ok(v) => Ok(v),
            Err(msg) => Err(NetworkError::SyncRecvError(msg)),
        }
    }
}

impl<S, R> Query for SyncQuery<S, R> {
    type Left = Sender<S>;

    type Right = Receiver<R>;

    closed spec fn left(&self) -> Sender<S> {
        self.sender
    }

    closed spec fn right(&self) -> Receiver<R> {
        self.receiver
    }

    fn create(sender: Sender<S>, receiver: Receiver<R>) -> (r: Self) {
        SyncQuery { sender, receiver }
    }

    fn into_split(self) -> (r: (Sender<S>, Receiver<R>)) {
        (self.sender, self.receiver)
    }
}

} // verus!
