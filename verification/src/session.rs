//! The session: identity, target server and channel membership for one
//! logical connection, and the byte commands each outbound operation owes
//! the wire. The session owns no socket; the surrounding program opens
//! and writes the stream and reports the outcomes back.

use vstd::prelude::*;

use crate::codec::{encode_join, encode_nick, encode_privmsg, encode_quit, encode_raw, encode_user,
    join_line, nick_line, privmsg_line, quit_cmd, raw_line, user_line};
use crate::words::{not_connected_text, not_connected_text_bytes};

verus! {

/// Why an outbound operation was refused.
#[derive(Debug)]
pub enum IrcError {
    /// The operation needs an open connection and there is none.
    NotConnected,
}

impl IrcError {
    /// The human-readable description of the error.
    pub fn text(&self) -> (r: Vec<u8>)
        ensures
            r@ == not_connected_text(),
    {
        not_connected_text_bytes()
    }
}

/// One logical connection's state: the chosen identity, the server while
/// connected, and the channel joined last.
pub struct IrcClient {
    /// Whether a connection is currently open.
    pub connected: bool,
    /// The chosen handle, fixed at creation.
    pub nickname: Vec<u8>,
    /// The server connected to; empty while disconnected.
    pub server: Vec<u8>,
    /// The channel joined last; empty until a join succeeds and cleared on
    /// disconnect.
    pub current_channel: Vec<u8>,
}

impl IrcClient {
    /// Without a connection there is no server and no channel.
    pub open spec fn wf(&self) -> bool {
        !self.connected ==> self.server@ == Seq::<u8>::empty() && self.current_channel@
            == Seq::<u8>::empty()
    }

    /// A fresh, disconnected session under the chosen identity.
    pub fn new(nickname: &[u8]) -> (r: IrcClient)
        ensures
            r.wf(),
            !r.connected,
            r.nickname@ == nickname@,
            r.server@ == Seq::<u8>::empty(),
            r.current_channel@ == Seq::<u8>::empty(),
    {
        IrcClient {
            connected: false,
            nickname: vstd::slice::slice_to_vec(nickname),
            server: Vec::new(),
            current_channel: Vec::new(),
        }
    }

    /// Leaves the connected state. When a connection was open, returns the
    /// parting command to write to it best-effort before it is dropped;
    /// the write's failure is not actionable and must be swallowed.
    pub fn disconnect(&mut self) -> (r: Option<Vec<u8>>)
        requires
            old(self).wf(),
        ensures
            final(self).wf(),
            !final(self).connected,
            final(self).nickname == old(self).nickname,
            final(self).server@ == Seq::<u8>::empty(),
            final(self).current_channel@ == Seq::<u8>::empty(),
            old(self).connected ==> (r matches Some(q) && q@ == quit_cmd()),
            !old(self).connected ==> r is None,
    {
        if self.connected {
            self.connected = false;
            self.server = Vec::new();
            self.current_channel = Vec::new();
            Some(encode_quit())
        } else {
            None
        }
    }

    /// Records a connection newly opened to `server`. Any connection open
    /// before must first have been torn down with `disconnect`; when
    /// opening the new one fails, this is simply never called and the
    /// session stays disconnected.
    pub fn connect_established(&mut self, server: &[u8])
        requires
            old(self).wf(),
            !old(self).connected,
        ensures
            final(self).wf(),
            final(self).connected,
            final(self).nickname == old(self).nickname,
            final(self).server@ == server@,
            final(self).current_channel@ == Seq::<u8>::empty(),
    {
        self.connected = true;
        self.server = vstd::slice::slice_to_vec(server);
    }

    /// The two registration commands, owed in order: the nickname command,
    /// then the user-identity command. The second is only to be written
    /// when the first was written successfully.
    pub fn register(&self) -> (r: Result<(Vec<u8>, Vec<u8>), IrcError>)
        ensures
            self.connected ==> (r matches Ok(p) && p.0@ == nick_line(self.nickname@) && p.1@
                == user_line(self.nickname@)),
            !self.connected ==> (r matches Err(e) && e is NotConnected),
    {
        if self.connected {
            Ok((encode_nick(self.nickname.as_slice()), encode_user(self.nickname.as_slice())))
        } else {
            Err(IrcError::NotConnected)
        }
    }

    /// The join command for `channel`. The channel only becomes current
    /// once the command was written successfully: `join_sent` records it.
    pub fn join_channel(&self, channel: &[u8]) -> (r: Result<Vec<u8>, IrcError>)
        ensures
            self.connected ==> (r matches Ok(line) && line@ == join_line(channel@)),
            !self.connected ==> (r matches Err(e) && e is NotConnected),
    {
        if self.connected {
            Ok(encode_join(channel))
        } else {
            Err(IrcError::NotConnected)
        }
    }

    /// Records `channel` as current after its join command went out. The
    /// join is optimistic: no acknowledgement of the server is awaited.
    pub fn join_sent(&mut self, channel: &[u8])
        requires
            old(self).wf(),
            old(self).connected,
        ensures
            final(self).wf(),
            final(self).connected,
            final(self).nickname == old(self).nickname,
            final(self).server == old(self).server,
            final(self).current_channel@ == channel@,
    {
        self.current_channel = vstd::slice::slice_to_vec(channel);
    }

    /// The directed-message command for `target`. The text is passed along
    /// unexamined: sanitizing embedded terminators is the caller's duty.
    pub fn send_message(&self, target: &[u8], text: &[u8]) -> (r: Result<Vec<u8>, IrcError>)
        ensures
            self.connected ==> (r matches Ok(line) && line@ == privmsg_line(target@, text@)),
            !self.connected ==> (r matches Err(e) && e is NotConnected),
    {
        if self.connected {
            Ok(encode_privmsg(target, text))
        } else {
            Err(IrcError::NotConnected)
        }
    }

    /// The single raw write path: arbitrary text with the terminator
    /// appended, owed to the wire as one line.
    pub fn send_raw(&self, text: &[u8]) -> (r: Result<Vec<u8>, IrcError>)
        ensures
            self.connected ==> (r matches Ok(line) && line@ == raw_line(text@)),
            !self.connected ==> (r matches Err(e) && e is NotConnected),
    {
        if self.connected {
            Ok(encode_raw(text))
        } else {
            Err(IrcError::NotConnected)
        }
    }

    /// The parting command, to be written best-effort; it changes no state
    /// by itself and its write's failure is swallowed by the caller.
    pub fn quit(&self) -> (r: Result<Vec<u8>, IrcError>)
        ensures
            self.connected ==> (r matches Ok(line) && line@ == quit_cmd()),
            !self.connected ==> (r matches Err(e) && e is NotConnected),
    {
        if self.connected {
            Ok(encode_quit())
        } else {
            Err(IrcError::NotConnected)
        }
    }
}

} // verus!
