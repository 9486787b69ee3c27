//! The protocol's literal words: command verbs, the recognized service
//! identity, and the fixed annotation texts put in front of forwarded
//! events — each as a specification sequence beside the function that
//! builds it.

use vstd::prelude::*;

verus! {

/// Bytes of "NICK ".
pub open spec fn nick_prefix() -> Seq<u8> {
    seq![78u8, 73u8, 67u8, 75u8, 32u8]
}

/// Bytes of "NICK ".
pub fn nick_prefix_bytes() -> (r: Vec<u8>)
    ensures
        r@ == nick_prefix(),
{
    let a: [u8; 5] = [78, 73, 67, 75, 32];
    let r = vstd::slice::slice_to_vec(a.as_slice());
    proof {
        assert(r@ =~= nick_prefix());
    }
    r
}

/// Bytes of "USER ".
pub open spec fn user_prefix() -> Seq<u8> {
    seq![85u8, 83u8, 69u8, 82u8, 32u8]
}

/// Bytes of "USER ".
pub fn user_prefix_bytes() -> (r: Vec<u8>)
    ensures
        r@ == user_prefix(),
{
    let a: [u8; 5] = [85, 83, 69, 82, 32];
    let r = vstd::slice::slice_to_vec(a.as_slice());
    proof {
        assert(r@ =~= user_prefix());
    }
    r
}

/// Bytes of " 0 * :".
pub open spec fn user_middle() -> Seq<u8> {
    seq![32u8, 48u8, 32u8, 42u8, 32u8, 58u8]
}

/// Bytes of " 0 * :".
pub fn user_middle_bytes() -> (r: Vec<u8>)
    ensures
        r@ == user_middle(),
{
    let a: [u8; 6] = [32, 48, 32, 42, 32, 58];
    let r = vstd::slice::slice_to_vec(a.as_slice());
    proof {
        assert(r@ =~= user_middle());
    }
    r
}

/// Bytes of "JOIN ".
pub open spec fn join_prefix() -> Seq<u8> {
    seq![74u8, 79u8, 73u8, 78u8, 32u8]
}

/// Bytes of "JOIN ".
pub fn join_prefix_bytes() -> (r: Vec<u8>)
    ensures
        r@ == join_prefix(),
{
    let a: [u8; 5] = [74, 79, 73, 78, 32];
    let r = vstd::slice::slice_to_vec(a.as_slice());
    proof {
        assert(r@ =~= join_prefix());
    }
    r
}

/// Bytes of "PRIVMSG ".
pub open spec fn privmsg_prefix() -> Seq<u8> {
    seq![80u8, 82u8, 73u8, 86u8, 77u8, 83u8, 71u8, 32u8]
}

/// Bytes of "PRIVMSG ".
pub fn privmsg_prefix_bytes() -> (r: Vec<u8>)
    ensures
        r@ == privmsg_prefix(),
{
    let a: [u8; 8] = [80, 82, 73, 86, 77, 83, 71, 32];
    let r = vstd::slice::slice_to_vec(a.as_slice());
    proof {
        assert(r@ =~= privmsg_prefix());
    }
    r
}

/// Bytes of " :".
pub open spec fn colon_sep() -> Seq<u8> {
    seq![32u8, 58u8]
}

/// Bytes of " :".
pub fn colon_sep_bytes() -> (r: Vec<u8>)
    ensures
        r@ == colon_sep(),
{
    let a: [u8; 2] = [32, 58];
    let r = vstd::slice::slice_to_vec(a.as_slice());
    proof {
        assert(r@ =~= colon_sep());
    }
    r
}

/// Bytes of "QUIT :Leaving".
pub open spec fn quit_line() -> Seq<u8> {
    seq![81u8, 85u8, 73u8, 84u8, 32u8, 58u8, 76u8, 101u8, 97u8, 118u8, 105u8, 110u8, 103u8]
}

/// Bytes of "QUIT :Leaving".
pub fn quit_line_bytes() -> (r: Vec<u8>)
    ensures
        r@ == quit_line(),
{
    let a: [u8; 13] = [81, 85, 73, 84, 32, 58, 76, 101, 97, 118, 105, 110, 103];
    let r = vstd::slice::slice_to_vec(a.as_slice());
    proof {
        assert(r@ =~= quit_line());
    }
    r
}

/// Bytes of "PING".
pub open spec fn ping_kw() -> Seq<u8> {
    seq![80u8, 73u8, 78u8, 71u8]
}

/// Bytes of "PING".
pub fn ping_kw_bytes() -> (r: Vec<u8>)
    ensures
        r@ == ping_kw(),
{
    let a: [u8; 4] = [80, 73, 78, 71];
    let r = vstd::slice::slice_to_vec(a.as_slice());
    proof {
        assert(r@ =~= ping_kw());
    }
    r
}

/// Bytes of "PONG".
pub open spec fn pong_kw() -> Seq<u8> {
    seq![80u8, 79u8, 78u8, 71u8]
}

/// Bytes of "PONG".
pub fn pong_kw_bytes() -> (r: Vec<u8>)
    ensures
        r@ == pong_kw(),
{
    let a: [u8; 4] = [80, 79, 78, 71];
    let r = vstd::slice::slice_to_vec(a.as_slice());
    proof {
        assert(r@ =~= pong_kw());
    }
    r
}

/// Bytes of "NOTICE".
pub open spec fn notice_kw() -> Seq<u8> {
    seq![78u8, 79u8, 84u8, 73u8, 67u8, 69u8]
}

/// Bytes of "NOTICE".
pub fn notice_kw_bytes() -> (r: Vec<u8>)
    ensures
        r@ == notice_kw(),
{
    let a: [u8; 6] = [78, 79, 84, 73, 67, 69];
    let r = vstd::slice::slice_to_vec(a.as_slice());
    proof {
        assert(r@ =~= notice_kw());
    }
    r
}

/// Bytes of "PRIVMSG".
pub open spec fn privmsg_kw() -> Seq<u8> {
    seq![80u8, 82u8, 73u8, 86u8, 77u8, 83u8, 71u8]
}

/// Bytes of "PRIVMSG".
pub fn privmsg_kw_bytes() -> (r: Vec<u8>)
    ensures
        r@ == privmsg_kw(),
{
    let a: [u8; 7] = [80, 82, 73, 86, 77, 83, 71];
    let r = vstd::slice::slice_to_vec(a.as_slice());
    proof {
        assert(r@ =~= privmsg_kw());
    }
    r
}

/// Bytes of "NickServ".
pub open spec fn service_name() -> Seq<u8> {
    seq![78u8, 105u8, 99u8, 107u8, 83u8, 101u8, 114u8, 118u8]
}

/// Bytes of "NickServ".
pub fn service_name_bytes() -> (r: Vec<u8>)
    ensures
        r@ == service_name(),
{
    let a: [u8; 8] = [78, 105, 99, 107, 83, 101, 114, 118];
    let r = vstd::slice::slice_to_vec(a.as_slice());
    proof {
        assert(r@ =~= service_name());
    }
    r
}

/// Bytes of "!NickServ@services".
pub open spec fn service_suffix() -> Seq<u8> {
    seq![33u8, 78u8, 105u8, 99u8, 107u8, 83u8, 101u8, 114u8, 118u8, 64u8, 115u8, 101u8, 114u8, 118u8, 105u8, 99u8, 101u8, 115u8]
}

/// Bytes of "!NickServ@services".
pub fn service_suffix_bytes() -> (r: Vec<u8>)
    ensures
        r@ == service_suffix(),
{
    let a: [u8; 18] = [33, 78, 105, 99, 107, 83, 101, 114, 118, 64, 115, 101, 114, 118, 105, 99, 101, 115];
    let r = vstd::slice::slice_to_vec(a.as_slice());
    proof {
        assert(r@ =~= service_suffix());
    }
    r
}

/// Bytes of ">>> Server ping: ".
pub open spec fn ping_note_prefix() -> Seq<u8> {
    seq![62u8, 62u8, 62u8, 32u8, 83u8, 101u8, 114u8, 118u8, 101u8, 114u8, 32u8, 112u8, 105u8, 110u8, 103u8, 58u8, 32u8]
}

/// Bytes of ">>> Server ping: ".
pub fn ping_note_prefix_bytes() -> (r: Vec<u8>)
    ensures
        r@ == ping_note_prefix(),
{
    let a: [u8; 17] = [62, 62, 62, 32, 83, 101, 114, 118, 101, 114, 32, 112, 105, 110, 103, 58, 32];
    let r = vstd::slice::slice_to_vec(a.as_slice());
    proof {
        assert(r@ =~= ping_note_prefix());
    }
    r
}

/// Bytes of "!!! NICKSERV: ".
pub open spec fn service_note_prefix() -> Seq<u8> {
    seq![33u8, 33u8, 33u8, 32u8, 78u8, 73u8, 67u8, 75u8, 83u8, 69u8, 82u8, 86u8, 58u8, 32u8]
}

/// Bytes of "!!! NICKSERV: ".
pub fn service_note_prefix_bytes() -> (r: Vec<u8>)
    ensures
        r@ == service_note_prefix(),
{
    let a: [u8; 14] = [33, 33, 33, 32, 78, 73, 67, 75, 83, 69, 82, 86, 58, 32];
    let r = vstd::slice::slice_to_vec(a.as_slice());
    proof {
        assert(r@ =~= service_note_prefix());
    }
    r
}

/// Bytes of "Not connected to server".
pub open spec fn not_connected_text() -> Seq<u8> {
    seq![78u8, 111u8, 116u8, 32u8, 99u8, 111u8, 110u8, 110u8, 101u8, 99u8, 116u8, 101u8, 100u8, 32u8, 116u8, 111u8, 32u8, 115u8, 101u8, 114u8, 118u8, 101u8, 114u8]
}

/// Bytes of "Not connected to server".
pub fn not_connected_text_bytes() -> (r: Vec<u8>)
    ensures
        r@ == not_connected_text(),
{
    let a: [u8; 23] = [78, 111, 116, 32, 99, 111, 110, 110, 101, 99, 116, 101, 100, 32, 116, 111, 32, 115, 101, 114, 118, 101, 114];
    let r = vstd::slice::slice_to_vec(a.as_slice());
    proof {
        assert(r@ =~= not_connected_text());
    }
    r
}

/// Bytes of "Error reading from server: ".
pub open spec fn read_error_prefix() -> Seq<u8> {
    seq![69u8, 114u8, 114u8, 111u8, 114u8, 32u8, 114u8, 101u8, 97u8, 100u8, 105u8, 110u8, 103u8, 32u8, 102u8, 114u8, 111u8, 109u8, 32u8, 115u8, 101u8, 114u8, 118u8, 101u8, 114u8, 58u8, 32u8]
}

/// Bytes of "Error reading from server: ".
pub fn read_error_prefix_bytes() -> (r: Vec<u8>)
    ensures
        r@ == read_error_prefix(),
{
    let a: [u8; 27] = [69, 114, 114, 111, 114, 32, 114, 101, 97, 100, 105, 110, 103, 32, 102, 114, 111, 109, 32, 115, 101, 114, 118, 101, 114, 58, 32];
    let r = vstd::slice::slice_to_vec(a.as_slice());
    proof {
        assert(r@ =~= read_error_prefix());
    }
    r
}

/// Bytes of "Connection to server closed.".
pub open spec fn closed_text() -> Seq<u8> {
    seq![67u8, 111u8, 110u8, 110u8, 101u8, 99u8, 116u8, 105u8, 111u8, 110u8, 32u8, 116u8, 111u8, 32u8, 115u8, 101u8, 114u8, 118u8, 101u8, 114u8, 32u8, 99u8, 108u8, 111u8, 115u8, 101u8, 100u8, 46u8]
}

/// Bytes of "Connection to server closed.".
pub fn closed_text_bytes() -> (r: Vec<u8>)
    ensures
        r@ == closed_text(),
{
    let a: [u8; 28] = [67, 111, 110, 110, 101, 99, 116, 105, 111, 110, 32, 116, 111, 32, 115, 101, 114, 118, 101, 114, 32, 99, 108, 111, 115, 101, 100, 46];
    let r = vstd::slice::slice_to_vec(a.as_slice());
    proof {
        assert(r@ =~= closed_text());
    }
    r
}

/// Bytes of "Failed to send PONG: ".
pub open spec fn pong_send_failed_prefix() -> Seq<u8> {
    seq![70u8, 97u8, 105u8, 108u8, 101u8, 100u8, 32u8, 116u8, 111u8, 32u8, 115u8, 101u8, 110u8, 100u8, 32u8, 80u8, 79u8, 78u8, 71u8, 58u8, 32u8]
}

/// Bytes of "Failed to send PONG: ".
pub fn pong_send_failed_prefix_bytes() -> (r: Vec<u8>)
    ensures
        r@ == pong_send_failed_prefix(),
{
    let a: [u8; 21] = [70, 97, 105, 108, 101, 100, 32, 116, 111, 32, 115, 101, 110, 100, 32, 80, 79, 78, 71, 58, 32];
    let r = vstd::slice::slice_to_vec(a.as_slice());
    proof {
        assert(r@ =~= pong_send_failed_prefix());
    }
    r
}

/// Bytes of "Failed to flush PONG: ".
pub open spec fn pong_flush_failed_prefix() -> Seq<u8> {
    seq![70u8, 97u8, 105u8, 108u8, 101u8, 100u8, 32u8, 116u8, 111u8, 32u8, 102u8, 108u8, 117u8, 115u8, 104u8, 32u8, 80u8, 79u8, 78u8, 71u8, 58u8, 32u8]
}

/// Bytes of "Failed to flush PONG: ".
pub fn pong_flush_failed_prefix_bytes() -> (r: Vec<u8>)
    ensures
        r@ == pong_flush_failed_prefix(),
{
    let a: [u8; 22] = [70, 97, 105, 108, 101, 100, 32, 116, 111, 32, 102, 108, 117, 115, 104, 32, 80, 79, 78, 71, 58, 32];
    let r = vstd::slice::slice_to_vec(a.as_slice());
    proof {
        assert(r@ =~= pong_flush_failed_prefix());
    }
    r
}

} // verus!
