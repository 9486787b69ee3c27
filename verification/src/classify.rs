//! Classifies each inbound line: a keep-alive probe to be answered at
//! once, a notice directed at the local identity by the recognized
//! service, or ordinary text passed through unchanged. The two patterns
//! are tried in that order and the first match wins.

use vstd::prelude::*;

use crate::crlf;
use crate::scan::{contains, contains_seq, ends_with, ends_with_seq, eq_bytes, find_byte, find_in,
    push_all, starts_with, starts_with_seq};
use crate::words::{notice_kw, notice_kw_bytes, ping_kw, ping_kw_bytes, ping_note_prefix,
    ping_note_prefix_bytes, pong_kw, pong_kw_bytes, privmsg_kw, privmsg_kw_bytes, service_name,
    service_name_bytes, service_note_prefix, service_note_prefix_bytes, service_suffix,
    service_suffix_bytes};

verus! {

/// The line is a keep-alive probe: its first token is the probe keyword.
pub open spec fn is_probe(line: Seq<u8>) -> bool {
    &&& starts_with_seq(line, ping_kw())
    &&& (line.len() == 4 || line[4] == 32u8)
}

/// The reply a probe demands: the probe keyword replaced by the reply
/// keyword, with the line terminator appended.
pub open spec fn probe_reply(line: Seq<u8>) -> Seq<u8> {
    pong_kw() + line.skip(4) + crlf()
}

/// The annotated event forwarded for a probe.
pub open spec fn probe_note(line: Seq<u8>) -> Seq<u8> {
    ping_note_prefix() + line
}

/// Leading sender markers ':' stripped from the front of a token.
pub open spec fn strip_colons(t: Seq<u8>) -> Seq<u8>
    decreases t.len(),
{
    if t.len() > 0 && t[0] == 58u8 {
        strip_colons(t.skip(1))
    } else {
        t
    }
}

/// The sender token names the recognized service: stripped of its sender
/// marker it contains the service identity, or ends with the service's
/// full sender suffix.
pub open spec fn sender_is_service(tok: Seq<u8>) -> bool {
    ||| contains_seq(strip_colons(tok), service_name())
    ||| ends_with_seq(strip_colons(tok), service_suffix())
}

/// The line is a notice directed at `nick` by the recognized service: it
/// splits into at least four space-separated tokens, the second is one of
/// the two directed-message verbs, the third equals `nick` exactly, and
/// the first names the service.
pub open spec fn is_service_notice(line: Seq<u8>, nick: Seq<u8>) -> bool {
    let i1 = find_byte(line, 32u8);
    i1 >= 0 && {
        let r1 = line.skip(i1 + 1);
        let i2 = find_byte(r1, 32u8);
        i2 >= 0 && {
            let r2 = r1.skip(i2 + 1);
            let i3 = find_byte(r2, 32u8);
            i3 >= 0 && {
                let tok0 = line.take(i1);
                let tok1 = r1.take(i2);
                let tok2 = r2.take(i3);
                &&& (tok1 == notice_kw() || tok1 == privmsg_kw())
                &&& tok2 == nick
                &&& sender_is_service(tok0)
            }
        }
    }
}

/// The annotated event forwarded for a directed-service notice.
pub open spec fn service_note(line: Seq<u8>) -> Seq<u8> {
    service_note_prefix() + line
}

/// What the classifier decided for one inbound line.
pub enum Classified {
    /// A keep-alive probe: `reply` must be written back at once, and
    /// `event` is forwarded so the consumer still sees the probe.
    Probe { reply: Vec<u8>, event: Vec<u8> },
    /// A directed-service notice, forwarded with the important-annotation.
    Service { event: Vec<u8> },
    /// Any other line, forwarded verbatim.
    Plain { event: Vec<u8> },
}

/// The classification `c` is the one owed to `line` under identity `nick`.
pub open spec fn classified_ok(c: Classified, line: Seq<u8>, nick: Seq<u8>) -> bool {
    match c {
        Classified::Probe { reply, event } => {
            &&& is_probe(line)
            &&& reply@ == probe_reply(line)
            &&& event@ == probe_note(line)
        },
        Classified::Service { event } => {
            &&& !is_probe(line)
            &&& is_service_notice(line, nick)
            &&& event@ == service_note(line)
        },
        Classified::Plain { event } => {
            &&& !is_probe(line)
            &&& !is_service_notice(line, nick)
            &&& event@ == line
        },
    }
}

/// Strips every leading ':' from `t`.
fn strip_colons_in<'a>(t: &'a [u8]) -> (r: &'a [u8])
    ensures
        r@ == strip_colons(t@),
{
    let n = t.len();
    let mut j: usize = 0;
    proof {
        assert(t@.skip(0) =~= t@);
    }
    while j < n && t[j] == 58u8
        invariant
            n == t@.len(),
            0 <= j <= n,
            strip_colons(t@) == strip_colons(t@.skip(j as int)),
        decreases n - j,
    {
        proof {
            assert(t@.skip(j as int)[0] == t@[j as int]);
            assert(t@.skip(j as int).skip(1) =~= t@.skip(j + 1));
        }
        j += 1;
    }
    let r = vstd::slice::slice_subrange(t, j, n);
    proof {
        assert(r@ =~= t@.skip(j as int));
    }
    r
}

/// Whether the sender token names the recognized service.
fn sender_is_service_in(tok: &[u8]) -> (r: bool)
    ensures
        r == sender_is_service(tok@),
{
    let stripped = strip_colons_in(tok);
    let name = service_name_bytes();
    if contains(stripped, name.as_slice()) {
        return true;
    }
    let suffix = service_suffix_bytes();
    ends_with(stripped, suffix.as_slice())
}

/// Whether the line is a notice directed at `nick` by the service.
fn is_service_notice_in(line: &[u8], nick: &[u8]) -> (r: bool)
    ensures
        r == is_service_notice(line@, nick@),
{
    let n = line.len();
    let i1 = match find_in(line, 32u8) {
        Some(i) => i,
        None => {
            return false;
        },
    };
    let r1 = vstd::slice::slice_subrange(line, i1 + 1, n);
    proof {
        assert(r1@ =~= line@.skip(i1 + 1));
    }
    let i2 = match find_in(r1, 32u8) {
        Some(i) => i,
        None => {
            return false;
        },
    };
    let r2 = vstd::slice::slice_subrange(r1, i2 + 1, r1.len());
    proof {
        assert(r2@ =~= r1@.skip(i2 + 1));
    }
    let i3 = match find_in(r2, 32u8) {
        Some(i) => i,
        None => {
            return false;
        },
    };
    let tok0 = vstd::slice::slice_subrange(line, 0, i1);
    let tok1 = vstd::slice::slice_subrange(r1, 0, i2);
    let tok2 = vstd::slice::slice_subrange(r2, 0, i3);
    proof {
        assert(tok0@ =~= line@.take(i1 as int));
        assert(tok1@ =~= r1@.take(i2 as int));
        assert(tok2@ =~= r2@.take(i3 as int));
    }
    let notice = notice_kw_bytes();
    let privmsg = privmsg_kw_bytes();
    if !(eq_bytes(tok1, notice.as_slice()) || eq_bytes(tok1, privmsg.as_slice())) {
        return false;
    }
    if !eq_bytes(tok2, nick) {
        return false;
    }
    sender_is_service_in(tok0)
}

/// Whether the line's first token is the probe keyword.
fn is_probe_in(line: &[u8]) -> (r: bool)
    ensures
        r == is_probe(line@),
{
    let kw = ping_kw_bytes();
    if !starts_with(line, kw.as_slice()) {
        return false;
    }
    line.len() == 4 || line[4] == 32u8
}

/// Classifies one inbound line, first match winning: probe, then
/// directed-service notice, then plain text.
pub fn classify(line: &[u8], nick: &[u8]) -> (c: Classified)
    ensures
        classified_ok(c, line@, nick@),
{
    if is_probe_in(line) {
        let mut reply = pong_kw_bytes();
        let payload = vstd::slice::slice_subrange(line, 4, line.len());
        proof {
            assert(payload@ =~= line@.skip(4));
        }
        push_all(&mut reply, payload);
        let term = crate::crlf_bytes();
        push_all(&mut reply, term.as_slice());
        let mut event = ping_note_prefix_bytes();
        push_all(&mut event, line);
        return Classified::Probe { reply, event };
    }
    if is_service_notice_in(line, nick) {
        let mut event = service_note_prefix_bytes();
        push_all(&mut event, line);
        return Classified::Service { event };
    }
    let event = vstd::slice::slice_to_vec(line);
    Classified::Plain { event }
}

} // verus!
