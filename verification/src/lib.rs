//! Session engine for a line-oriented, text-based chat protocol over a
//! persistent stream connection: outbound command encoding, inbound byte
//! framing, keep-alive and service-notice classification, and the
//! connection-lifecycle state machine.
//!
//! The engine works on plain bytes and owns no socket: the surrounding
//! program performs the reads and writes and feeds the outcomes back in.

pub mod classify;
pub mod codec;
pub mod framer;
pub mod receiver;
pub mod scan;
pub mod session;
pub mod words;

use vstd::prelude::*;

verus! {

/// Bytes of the line terminator "\r\n".
pub open spec fn crlf() -> Seq<u8> {
    seq![13u8, 10u8]
}

/// Bytes of the line terminator "\r\n".
pub fn crlf_bytes() -> (r: Vec<u8>)
    ensures
        r@ == crlf(),
{
    let a: [u8; 2] = [13, 10];
    let r = vstd::slice::slice_to_vec(a.as_slice());
    proof {
        assert(r@ =~= crlf());
    }
    r
}

} // verus!
