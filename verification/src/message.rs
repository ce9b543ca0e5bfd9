//! What this library knows of a transport message: the bytes it holds, and
//! the two ways in which one is made here. Nothing in this file is proved;
//! each contract says what `zmq` does.

use vstd::prelude::*;

verus! {

/// `zmq::Message`, one frame as it is sent or received. The library hands
/// messages on and never looks inside one.
#[verifier::external_type_specification]
#[verifier::external_body]
pub struct ExMessage(zmq::Message);

/// The bytes that a message holds, in order: what `zmq::Message` derefs to.
pub uninterp spec fn message_bytes(m: zmq::Message) -> Seq<u8>;

/// `len` bytes, each of them zero.
pub open spec fn zeros(len: nat) -> Seq<u8> {
    Seq::new(len, |i: int| 0u8)
}

/// `zmq::Message::new` makes a message that holds no bytes.
pub assume_specification[ zmq::Message::new ]() -> (m: zmq::Message)
    ensures
        message_bytes(m) == Seq::<u8>::empty(),
;

/// `zmq::Message::with_size` makes a message of `len` bytes and sets each of
/// them to zero. It panics where the bytes cannot be had; the lengths that no
/// allocation can have are left out here, and for the others the call is
/// taken to succeed, as an allocation is everywhere else.
pub assume_specification[ zmq::Message::with_size ](len: usize) -> (m: zmq::Message)
    requires
        len <= isize::MAX,
    ensures
        message_bytes(m) == zeros(len as nat),
;

} // verus!
