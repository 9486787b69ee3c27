//! The wire codec: stateless encoding of each outbound command into the
//! exact terminated byte line the protocol requires.

use vstd::prelude::*;

use crate::crlf;
use crate::crlf_bytes;
use crate::scan::push_all;
use crate::words::{colon_sep, colon_sep_bytes, join_prefix, join_prefix_bytes, nick_prefix,
    nick_prefix_bytes, privmsg_prefix, privmsg_prefix_bytes, quit_line, quit_line_bytes,
    user_middle, user_middle_bytes, user_prefix, user_prefix_bytes};

verus! {

/// "NICK <nick>" terminated.
pub open spec fn nick_line(nick: Seq<u8>) -> Seq<u8> {
    nick_prefix() + nick + crlf()
}

/// "USER <nick> 0 * :<nick>" terminated.
pub open spec fn user_line(nick: Seq<u8>) -> Seq<u8> {
    user_prefix() + nick + user_middle() + nick + crlf()
}

/// "JOIN <channel>" terminated.
pub open spec fn join_line(channel: Seq<u8>) -> Seq<u8> {
    join_prefix() + channel + crlf()
}

/// "PRIVMSG <target> :<text>" terminated.
pub open spec fn privmsg_line(target: Seq<u8>, text: Seq<u8>) -> Seq<u8> {
    privmsg_prefix() + target + colon_sep() + text + crlf()
}

/// "QUIT :Leaving" terminated.
pub open spec fn quit_cmd() -> Seq<u8> {
    quit_line() + crlf()
}

/// Arbitrary text with the line terminator appended.
pub open spec fn raw_line(text: Seq<u8>) -> Seq<u8> {
    text + crlf()
}

/// Encodes the nickname command of registration.
pub fn encode_nick(nick: &[u8]) -> (r: Vec<u8>)
    ensures
        r@ == nick_line(nick@),
{
    let mut r = nick_prefix_bytes();
    push_all(&mut r, nick);
    let term = crlf_bytes();
    push_all(&mut r, term.as_slice());
    r
}

/// Encodes the user-identity command of registration.
pub fn encode_user(nick: &[u8]) -> (r: Vec<u8>)
    ensures
        r@ == user_line(nick@),
{
    let mut r = user_prefix_bytes();
    push_all(&mut r, nick);
    let middle = user_middle_bytes();
    push_all(&mut r, middle.as_slice());
    push_all(&mut r, nick);
    let term = crlf_bytes();
    push_all(&mut r, term.as_slice());
    r
}

/// Encodes the channel-join command.
pub fn encode_join(channel: &[u8]) -> (r: Vec<u8>)
    ensures
        r@ == join_line(channel@),
{
    let mut r = join_prefix_bytes();
    push_all(&mut r, channel);
    let term = crlf_bytes();
    push_all(&mut r, term.as_slice());
    r
}

/// Encodes the directed-message command.
pub fn encode_privmsg(target: &[u8], text: &[u8]) -> (r: Vec<u8>)
    ensures
        r@ == privmsg_line(target@, text@),
{
    let mut r = privmsg_prefix_bytes();
    push_all(&mut r, target);
    let sep = colon_sep_bytes();
    push_all(&mut r, sep.as_slice());
    push_all(&mut r, text);
    let term = crlf_bytes();
    push_all(&mut r, term.as_slice());
    r
}

/// Encodes the parting command.
pub fn encode_quit() -> (r: Vec<u8>)
    ensures
        r@ == quit_cmd(),
{
    let mut r = quit_line_bytes();
    let term = crlf_bytes();
    push_all(&mut r, term.as_slice());
    r
}

/// Appends the line terminator to arbitrary text.
pub fn encode_raw(text: &[u8]) -> (r: Vec<u8>)
    ensures
        r@ == raw_line(text@),
{
    let mut r = vstd::slice::slice_to_vec(text);
    let term = crlf_bytes();
    push_all(&mut r, term.as_slice());
    r
}

} // verus!
