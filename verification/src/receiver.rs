//! The receiver's decisions: framing each chunk read from the stream into
//! lines, classifying every line, and ruling on what a failed read or a
//! failed probe answer means for the loop. The blocking reads, the probe
//! replies and the event queue live with the surrounding program, which
//! feeds every outcome back in here.

use vstd::prelude::*;

use crate::classify::{classified_ok, classify, Classified};
use crate::framer::{lines_of, rest_of, Framer};
use crate::words::{closed_text, closed_text_bytes, pong_flush_failed_prefix,
    pong_flush_failed_prefix_bytes, pong_send_failed_prefix, pong_send_failed_prefix_bytes,
    read_error_prefix, read_error_prefix_bytes};

verus! {

/// Drains the stream of chunks into classified lines for one connection.
pub struct Receiver {
    framer: Framer,
    nickname: Vec<u8>,
}

impl Receiver {
    /// The bytes of the partial line still buffered.
    pub closed spec fn buffered(&self) -> Seq<u8> {
        self.framer@
    }

    /// The local identity that directed notices are matched against.
    pub closed spec fn nick(&self) -> Seq<u8> {
        self.nickname@
    }

    /// The buffer never holds a complete line.
    pub closed spec fn wf(&self) -> bool {
        self.framer.wf()
    }

    /// A receiver for a fresh connection under the local identity `nick`.
    pub fn new(nick: &[u8]) -> (r: Receiver)
        ensures
            r.wf(),
            r.buffered() == Seq::<u8>::empty(),
            r.nick() == nick@,
    {
        Receiver { framer: Framer::new(), nickname: vstd::slice::slice_to_vec(nick) }
    }

    /// Takes one chunk read from the stream and returns the classification
    /// of every line it completes, in the order the lines arrived.
    pub fn on_chunk(&mut self, chunk: &[u8]) -> (out: Vec<Classified>)
        requires
            old(self).wf(),
        ensures
            final(self).wf(),
            final(self).nick() == old(self).nick(),
            final(self).buffered() == rest_of(old(self).buffered() + chunk@),
            out@.len() == lines_of(old(self).buffered() + chunk@).len(),
            forall|i: int|
                0 <= i < out@.len() ==> classified_ok(
                    #[trigger] out@[i],
                    lines_of(old(self).buffered() + chunk@)[i],
                    old(self).nick(),
                ),
    {
        let lines = self.framer.feed(chunk);
        let ghost all = lines_of(old(self).buffered() + chunk@);
        let mut out: Vec<Classified> = Vec::new();
        let n = lines.len();
        let mut i: usize = 0;
        while i < n
            invariant
                n == lines@.len(),
                lines@.map_values(|l: Vec<u8>| l@) == all,
                self.nickname@ == old(self).nick(),
                0 <= i <= n,
                out@.len() == i,
                forall|j: int|
                    0 <= j < i ==> classified_ok(#[trigger] out@[j], all[j], old(self).nick()),
            decreases n - i,
        {
            proof {
                assert(lines@.map_values(|l: Vec<u8>| l@)[i as int] == lines@[i as int]@);
            }
            let c = classify(lines[i].as_slice(), self.nickname.as_slice());
            out.push(c);
            i += 1;
        }
        out
    }
}

/// What the receiver loop does after a read that yielded no data.
pub enum ReadFailure {
    /// The read timed out with nothing to deliver yet: no error.
    TimedOut,
    /// Orderly closure: the read returned zero bytes.
    Closed,
    /// The connection was reset or aborted by the remote.
    ConnectionLost,
    /// Any other read error, with its description.
    Failed { detail: Vec<u8> },
}

/// The loop's ruling on a failed read: an event to forward, and whether
/// the loop is over.
pub struct ReadStep {
    /// The read-error event owed to the consumer, when one is.
    pub event: Option<Vec<u8>>,
    /// Whether the receiver loop must exit.
    pub stop: bool,
}

/// Rules on a failed read. A timeout only means "no data yet": the loop
/// waits briefly and retries. Closure and loss of the connection end the
/// loop quietly; any other read error ends it after one event describing
/// the error. Whenever the loop ends, `closed_event` is owed as the final
/// event.
pub fn on_read_failure(f: &ReadFailure) -> (r: ReadStep)
    ensures
        r.stop == !(f is TimedOut),
        f matches ReadFailure::Failed { detail } ==> (r.event matches Some(e) && e@
            == read_error_prefix() + detail@),
        !(f is Failed) ==> r.event is None,
{
    match f {
        ReadFailure::TimedOut => ReadStep { event: None, stop: false },
        ReadFailure::Closed => ReadStep { event: None, stop: true },
        ReadFailure::ConnectionLost => ReadStep { event: None, stop: true },
        ReadFailure::Failed { detail } => {
            let mut e = read_error_prefix_bytes();
            crate::scan::push_all(&mut e, detail.as_slice());
            ReadStep { event: Some(e), stop: true }
        },
    }
}

/// The informational event emitted once when the receiver loop exits.
pub fn closed_event() -> (r: Vec<u8>)
    ensures
        r@ == closed_text(),
{
    closed_text_bytes()
}

/// The event that replaces a probe's annotation when writing the reply
/// failed.
pub fn probe_send_failure(detail: &[u8]) -> (r: Vec<u8>)
    ensures
        r@ == pong_send_failed_prefix() + detail@,
{
    let mut e = pong_send_failed_prefix_bytes();
    crate::scan::push_all(&mut e, detail);
    e
}

/// The event that replaces a probe's annotation when flushing the reply
/// failed.
pub fn probe_flush_failure(detail: &[u8]) -> (r: Vec<u8>)
    ensures
        r@ == pong_flush_failed_prefix() + detail@,
{
    let mut e = pong_flush_failed_prefix_bytes();
    crate::scan::push_all(&mut e, detail);
    e
}

} // verus!
